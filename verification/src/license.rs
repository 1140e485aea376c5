//! The license record, its signed envelope, and their wire form.
//!
//! A license key is the base64 text of a JSON object with the members
//! `license` and `signature`. The signature is made over the canonical JSON
//! text of the license alone, which is written here member by member so that
//! it never changes.

use crate::armor::{base64_bytes_of, base64_decode, base64_encode, base64_text_of};
use crate::error::{DecodeError, EncodeError};
use crate::json::{
    json_bytes_of, json_members_of, json_seats_of, json_string_of, json_text_of_bytes,
    json_text_of_seats, json_text_of_string, json_text_of_timestamp, json_timestamp_of,
    members_view, opt_members_view, read_bytes, read_members, read_seats, read_string,
    read_timestamp, write_bytes, write_seats, write_string, write_timestamp,
};
use crate::level::LicenseLevel;
use crate::scan::{count_members, member_count};
use crate::text::{bytes_eq, str_eq, text_view};
use crate::time::Timestamp;
use vstd::prelude::*;
use vstd::string::StringExecFns;
use vstd::utf8::encode_utf8;

verus! {

/// What a license grants, and to whom.
#[derive(Debug, PartialEq, Eq)]
pub struct License {
    pub id: String,
    pub level: LicenseLevel,
    /// The domain that the license is valid for; empty for any domain.
    pub domain: String,
    pub valid_until: Timestamp,
    /// The number of seats; `None` and zero both mean that seats are not
    /// limited.
    pub seats: Option<i32>,
}

/// A license as a mathematical value.
pub struct LicenseView {
    pub id: Seq<char>,
    pub level: LicenseLevel,
    pub domain: Seq<char>,
    pub valid_until: Timestamp,
    pub seats: Option<i32>,
}

impl View for License {
    type V = LicenseView;

    open spec fn view(&self) -> LicenseView {
        LicenseView {
            id: self.id@,
            level: self.level,
            domain: self.domain@,
            valid_until: self.valid_until,
            seats: self.seats,
        }
    }
}

/// A license together with the signature over its canonical JSON text.
#[derive(Debug, PartialEq, Eq)]
pub struct SignedLicense {
    pub license: License,
    pub signature: Vec<u8>,
}

/// A signed license as a mathematical value.
pub struct SignedLicenseView {
    pub license: LicenseView,
    pub signature: Seq<u8>,
}

impl View for SignedLicense {
    type V = SignedLicenseView;

    open spec fn view(&self) -> SignedLicenseView {
        SignedLicenseView { license: self.license@, signature: self.signature@ }
    }
}

/// The JSON text of a level.
pub open spec fn level_json(level: LicenseLevel) -> Seq<char> {
    match level {
        LicenseLevel::Team => "\"Team\""@,
        LicenseLevel::Enterprise => "\"Enterprise\""@,
    }
}

/// The JSON object of a license, made of the JSON texts of its members: five
/// members in a fixed order, with no white space.
pub open spec fn license_frame(
    id: Seq<char>,
    level: LicenseLevel,
    domain: Seq<char>,
    valid_until: Seq<char>,
    seats: Seq<char>,
) -> Seq<char> {
    "{\"id\":"@ + id + ",\"level\":"@ + level_json(level) + ",\"domain\":"@ + domain
        + ",\"valid_until\":"@ + valid_until + ",\"seats\":"@ + seats + "}"@
}

/// The canonical JSON text of a license. `None` where a member has no JSON
/// text.
pub open spec fn license_json(license: LicenseView) -> Option<Seq<char>> {
    match (
        json_text_of_string(license.id),
        json_text_of_string(license.domain),
        json_text_of_timestamp(license.valid_until.secs, license.valid_until.nanos),
        json_text_of_seats(license.seats),
    ) {
        (Some(id), Some(domain), Some(valid_until), Some(seats)) => Some(
            license_frame(id, license.level, domain, valid_until, seats),
        ),
        _ => None,
    }
}

/// The bytes that a signature is made over: the canonical JSON text of the
/// license in UTF-8.
pub open spec fn canonical_bytes(license: LicenseView) -> Option<Seq<u8>> {
    match license_json(license) {
        Some(text) => Some(encode_utf8(text)),
        None => None,
    }
}

/// The JSON object of a signed license, made of the JSON texts of its two
/// members.
pub open spec fn signed_license_frame(license: Seq<char>, signature: Seq<char>) -> Seq<char> {
    "{\"license\":"@ + license + ",\"signature\":"@ + signature + "}"@
}

/// The JSON text of a signed license.
pub open spec fn signed_license_json(signed: SignedLicenseView) -> Option<Seq<char>> {
    match (license_json(signed.license), json_text_of_bytes(signed.signature)) {
        (Some(license), Some(signature)) => Some(signed_license_frame(license, signature)),
        _ => None,
    }
}

/// What is written for a signed license: the base64 text of its JSON text.
pub open spec fn written_key(signed: SignedLicenseView) -> Option<Seq<char>> {
    match signed_license_json(signed) {
        Some(json) => Some(base64_text_of(encode_utf8(json))),
        None => None,
    }
}

/// The license key of a signed license: what is written for it, where that
/// reads back as the signed license. A signed license for which nothing is
/// written, or something that reads back as another value or not at all,
/// has no license key.
pub open spec fn license_key(signed: SignedLicenseView) -> Option<Seq<char>> {
    match written_key(signed) {
        Some(key) => if signed_license_of_key(encode_utf8(key)) == Ok::<
            SignedLicenseView,
            DecodeError,
        >(signed) {
            Some(key)
        } else {
            None
        },
        None => None,
    }
}

/// The text of the first member called `name`, looking from position `from`.
pub open spec fn member_from(
    members: Seq<(Seq<char>, Seq<char>)>,
    name: Seq<char>,
    from: int,
) -> Option<Seq<char>>
    decreases members.len() - from,
{
    if from < 0 || from >= members.len() {
        None
    } else if members[from].0 == name {
        Some(members[from].1)
    } else {
        member_from(members, name, from + 1)
    }
}

/// The text of the member called `name`, if the object has one.
pub open spec fn member_text(members: Seq<(Seq<char>, Seq<char>)>, name: Seq<char>) -> Option<
    Seq<char>,
> {
    member_from(members, name, 0)
}

/// The member that `member_from` finds is the first from `from` on that is
/// called `name`, and it finds none only where none is called so.
pub proof fn law_member_from_is_first_match(
    members: Seq<(Seq<char>, Seq<char>)>,
    name: Seq<char>,
    from: int,
)
    requires
        0 <= from,
    ensures
        match member_from(members, name, from) {
            Some(text) => exists|i: int|
                {
                    &&& from <= i < members.len()
                    &&& #[trigger] members[i] == (name, text)
                    &&& forall|j: int| from <= j < i ==> (#[trigger] members[j]).0 != name
                },
            None => forall|i: int| from <= i < members.len() ==> (#[trigger] members[i]).0 != name,
        },
    decreases members.len() - from,
{
    if from < members.len() {
        if members[from].0 == name {
            assert(members[from] == (name, members[from].1));
        } else {
            law_member_from_is_first_match(members, name, from + 1);
            if let Some(text) = member_from(members, name, from + 1) {
                let i = choose|i: int|
                    {
                        &&& from + 1 <= i < members.len()
                        &&& #[trigger] members[i] == (name, text)
                        &&& forall|j: int| from + 1 <= j < i ==> (#[trigger] members[j]).0 != name
                    };
                assert(members[i] == (name, text));
            }
        }
    }
}

/// What `serialize` hands out, `deserialize` turns into the same signed
/// license again.
pub proof fn law_license_key_reads_back(signed: SignedLicenseView, key: Seq<char>)
    requires
        license_key(signed) == Some(key),
    ensures
        signed_license_of_key(encode_utf8(key)) == Ok::<SignedLicenseView, DecodeError>(signed),
        written_key(signed) == Some(key),
{
}

/// The level that a JSON string names.
pub open spec fn level_of_tag(tag: Seq<char>) -> Option<LicenseLevel> {
    if tag == "Team"@ {
        Some(LicenseLevel::Team)
    } else if tag == "Enterprise"@ {
        Some(LicenseLevel::Enterprise)
    } else {
        None
    }
}

/// The level that the text of a member holds.
pub open spec fn level_of_text(text: Seq<char>) -> Option<LicenseLevel> {
    match json_string_of(text) {
        Some(tag) => level_of_tag(tag),
        None => None,
    }
}

/// The seat count that a member holds; a missing member stands for no seat
/// count.
pub open spec fn seats_of_member(text: Option<Seq<char>>) -> Option<Option<i32>> {
    match text {
        None => Some(None),
        Some(t) => json_seats_of(t),
    }
}

/// The license that the members of a JSON object give. The members `id`,
/// `level`, `domain` and `valid_until` are required, `seats` may be missing,
/// and members of other names are passed over.
pub open spec fn license_of_members(members: Seq<(Seq<char>, Seq<char>)>) -> Option<LicenseView> {
    match (
        member_text(members, "id"@),
        member_text(members, "level"@),
        member_text(members, "domain"@),
        member_text(members, "valid_until"@),
    ) {
        (Some(id_text), Some(level_text), Some(domain_text), Some(until_text)) => match (
            json_string_of(id_text),
            level_of_text(level_text),
            json_string_of(domain_text),
            json_timestamp_of(until_text),
            seats_of_member(member_text(members, "seats"@)),
        ) {
            (Some(id), Some(level), Some(domain), Some(until), Some(seats)) => Some(
                LicenseView {
                    id,
                    level,
                    domain,
                    valid_until: Timestamp { secs: until.0, nanos: until.1 },
                    seats,
                },
            ),
            _ => None,
        },
        _ => None,
    }
}

/// The members of a JSON object in which no name comes twice: the members
/// that the JSON reader finds, where they are as many as the bytes write
/// down.
pub open spec fn distinct_members_of(doc: Seq<u8>) -> Option<Seq<(Seq<char>, Seq<char>)>> {
    match json_members_of(doc) {
        Some(members) => if member_count(doc) == members.len() {
            Some(members)
        } else {
            None
        },
        None => None,
    }
}

/// The signed license that a JSON document gives: an object with the
/// members `license`, itself an object, and `signature`, an array of bytes.
/// Neither object may hold a name twice.
pub open spec fn signed_license_of_json(doc: Seq<u8>) -> Option<SignedLicenseView> {
    match distinct_members_of(doc) {
        None => None,
        Some(members) => match (
            member_text(members, "license"@),
            member_text(members, "signature"@),
        ) {
            (Some(license_text), Some(signature_text)) => match (
                distinct_members_of(encode_utf8(license_text)),
                json_bytes_of(signature_text),
            ) {
                (Some(license_members), Some(signature)) => match license_of_members(
                    license_members,
                ) {
                    Some(license) => Some(SignedLicenseView { license, signature }),
                    None => None,
                },
                _ => None,
            },
            _ => None,
        },
    }
}

/// The signed license that a license key gives.
pub open spec fn signed_license_of_key(key: Seq<u8>) -> Result<SignedLicenseView, DecodeError> {
    match base64_bytes_of(key) {
        None => Err(DecodeError::MalformedBase64),
        Some(doc) => match signed_license_of_json(doc) {
            None => Err(DecodeError::MalformedJson),
            Some(signed) => Ok(signed),
        },
    }
}

/// The view of a signed license that may have failed to decode.
pub open spec fn decoded_view(decoded: Result<SignedLicense, DecodeError>) -> Result<
    SignedLicenseView,
    DecodeError,
> {
    match decoded {
        Ok(signed) => Ok(signed@),
        Err(e) => Err(e),
    }
}

/// The license used where no license key was given: team level, any domain,
/// no seat limit, valid to the end of the year 9999.
pub open spec fn default_license() -> LicenseView {
    LicenseView {
        id: "default-license"@,
        level: LicenseLevel::Team,
        domain: ""@,
        valid_until: Timestamp { secs: 253_402_300_799, nanos: 0 },
        seats: None,
    }
}

/// The view of a license that may be missing.
pub open spec fn license_view(license: Option<License>) -> Option<LicenseView> {
    match license {
        Some(l) => Some(l@),
        None => None,
    }
}

/// The view of a signed license that may be missing.
pub open spec fn signed_license_view(signed: Option<SignedLicense>) -> Option<SignedLicenseView> {
    match signed {
        Some(s) => Some(s@),
        None => None,
    }
}

/// Writes the JSON object of a license from the JSON texts of its members.
pub fn frame_license(
    id: &str,
    level: LicenseLevel,
    domain: &str,
    valid_until: &str,
    seats: &str,
) -> (r: String)
    ensures
        r@ == license_frame(id@, level, domain@, valid_until@, seats@),
{
    let mut out = String::from_str("{\"id\":");
    out.append(id);
    out.append(",\"level\":");
    match level {
        LicenseLevel::Team => out.append("\"Team\""),
        LicenseLevel::Enterprise => out.append("\"Enterprise\""),
    }
    out.append(",\"domain\":");
    out.append(domain);
    out.append(",\"valid_until\":");
    out.append(valid_until);
    out.append(",\"seats\":");
    out.append(seats);
    out.append("}");
    out
}

/// Writes the JSON object of a signed license from the JSON texts of its
/// members.
pub fn frame_signed_license(license: &str, signature: &str) -> (r: String)
    ensures
        r@ == signed_license_frame(license@, signature@),
{
    let mut out = String::from_str("{\"license\":");
    out.append(license);
    out.append(",\"signature\":");
    out.append(signature);
    out.append("}");
    out
}

/// Reads a level from the string that names it.
pub fn level_from_tag(tag: &str) -> (r: Option<LicenseLevel>)
    ensures
        r == level_of_tag(tag@),
{
    if str_eq(tag, "Team") {
        Some(LicenseLevel::Team)
    } else if str_eq(tag, "Enterprise") {
        Some(LicenseLevel::Enterprise)
    } else {
        None
    }
}

/// Reads the members of a JSON object in which no name comes twice.
pub fn read_distinct_members(doc: &[u8]) -> (r: Option<Vec<(String, String)>>)
    ensures
        opt_members_view(r) == distinct_members_of(doc@),
{
    let members = read_members(doc)?;
    if count_members(doc) == members.len() {
        Some(members)
    } else {
        None
    }
}

/// Finds the text of the member called `name`.
pub fn find_member<'a>(members: &'a Vec<(String, String)>, name: &str) -> (r: Option<&'a String>)
    ensures
        match r {
            Some(text) => member_text(members_view(members@), name@) == Some(text@),
            None => member_text(members_view(members@), name@) is None,
        },
{
    let ghost view = members_view(members@);
    let mut i: usize = 0;
    while i < members.len()
        invariant
            i <= members@.len(),
            view == members_view(members@),
            member_text(view, name@) == member_from(view, name@, i as int),
        decreases members@.len() - i,
    {
        if str_eq(members[i].0.as_str(), name) {
            return Some(&members[i].1);
        }
        i += 1;
    }
    None
}

/// Reads a level from the text of a member.
pub fn read_level(text: &str) -> (r: Option<LicenseLevel>)
    ensures
        r == level_of_text(text@),
{
    let tag = read_string(text)?;
    level_from_tag(tag.as_str())
}

impl Clone for License {
    fn clone(&self) -> (r: License)
        ensures
            r@ == self@,
    {
        License {
            id: self.id.clone(),
            level: self.level,
            domain: self.domain.clone(),
            valid_until: self.valid_until,
            seats: self.seats,
        }
    }
}

impl License {
    /// The license used where no license key was given.
    pub fn default_license() -> (r: License)
        ensures
            r@ == default_license(),
    {
        License {
            id: "default-license".to_string(),
            level: LicenseLevel::Team,
            domain: "".to_string(),
            valid_until: Timestamp::end_of_time(),
            seats: None,
        }
    }

    /// Whether this license and `other` are the same value.
    pub fn same_as(&self, other: &License) -> (r: bool)
        ensures
            r == (self@ == other@),
    {
        let same_seats = match (self.seats, other.seats) {
            (None, None) => true,
            (Some(a), Some(b)) => a == b,
            _ => false,
        };
        self.id == other.id && self.level == other.level && self.domain == other.domain
            && self.valid_until == other.valid_until && same_seats
    }

    /// Writes the canonical JSON text of this license.
    pub fn to_json(&self) -> (r: Option<String>)
        ensures
            text_view(r) == license_json(self@),
    {
        let id = write_string(self.id.as_str())?;
        let domain = write_string(self.domain.as_str())?;
        let valid_until = write_timestamp(self.valid_until)?;
        let seats = write_seats(self.seats)?;
        Some(
            frame_license(
                id.as_str(),
                self.level,
                domain.as_str(),
                valid_until.as_str(),
                seats.as_str(),
            ),
        )
    }

    /// Builds a license from the members of a JSON object.
    pub fn from_members(members: &Vec<(String, String)>) -> (r: Option<License>)
        ensures
            license_view(r) == license_of_members(members_view(members@)),
    {
        let id_text = find_member(members, "id")?;
        let level_text = find_member(members, "level")?;
        let domain_text = find_member(members, "domain")?;
        let until_text = find_member(members, "valid_until")?;
        let id = read_string(id_text.as_str())?;
        let level = read_level(level_text.as_str())?;
        let domain = read_string(domain_text.as_str())?;
        let until = read_timestamp(until_text.as_str())?;
        let seats = match find_member(members, "seats") {
            None => None,
            Some(text) => read_seats(text.as_str())?,
        };
        Some(License { id, level, domain, valid_until: Timestamp::new(until.0, until.1), seats })
    }
}

impl SignedLicense {
    /// Writes the JSON text of this signed license.
    pub fn to_json(&self) -> (r: Option<String>)
        ensures
            text_view(r) == signed_license_json(self@),
    {
        let license = self.license.to_json()?;
        let signature = write_bytes(self.signature.as_slice())?;
        Some(frame_signed_license(license.as_str(), signature.as_str()))
    }

    /// Reads a signed license from its JSON text.
    pub fn from_json(doc: &[u8]) -> (r: Option<SignedLicense>)
        ensures
            signed_license_view(r) == signed_license_of_json(doc@),
    {
        let members = read_distinct_members(doc)?;
        let license_text = find_member(&members, "license")?;
        let signature_text = find_member(&members, "signature")?;
        let license_members = read_distinct_members(license_text.as_str().as_bytes())?;
        let signature = read_bytes(signature_text.as_str())?;
        let license = License::from_members(&license_members)?;
        Some(SignedLicense { license, signature })
    }

    /// Whether this signed license and `other` are the same value.
    pub fn same_as(&self, other: &SignedLicense) -> (r: bool)
        ensures
            r == (self@ == other@),
    {
        self.license.same_as(&other.license) && bytes_eq(
            self.signature.as_slice(),
            other.signature.as_slice(),
        )
    }

    /// Writes the license key: the base64 text of the JSON text. The key is
    /// read back before it is handed out, so every key that comes from here
    /// is one that `deserialize` turns into this signed license again.
    pub fn serialize(&self) -> (r: Result<String, EncodeError>)
        ensures
            match r {
                Ok(key) => license_key(self@) == Some(key@),
                Err(e) => license_key(self@) is None && e == EncodeError::Unrepresentable,
            },
            r matches Ok(key) ==> signed_license_of_key(encode_utf8(key@)) == Ok::<
                SignedLicenseView,
                DecodeError,
            >(self@),
    {
        let json = match self.to_json() {
            Some(json) => json,
            None => {
                return Err(EncodeError::Unrepresentable);
            },
        };
        let key = base64_encode(json.as_str().as_bytes());
        match SignedLicense::deserialize(key.as_str().as_bytes()) {
            Ok(read_back) => if read_back.same_as(self) {
                Ok(key)
            } else {
                Err(EncodeError::Unrepresentable)
            },
            Err(_) => Err(EncodeError::Unrepresentable),
        }
    }

    /// Reads a signed license from a license key. The key is base64 text,
    /// and what it decodes to is the JSON text of a signed license.
    pub fn deserialize(bytes: &[u8]) -> (r: Result<SignedLicense, DecodeError>)
        ensures
            decoded_view(r) == signed_license_of_key(bytes@),
    {
        match base64_decode(bytes) {
            None => Err(DecodeError::MalformedBase64),
            Some(doc) => match SignedLicense::from_json(doc.as_slice()) {
                None => Err(DecodeError::MalformedJson),
                Some(signed) => Ok(signed),
            },
        }
    }
}

impl Clone for SignedLicense {
    fn clone(&self) -> (r: SignedLicense)
        ensures
            r@ == self@,
    {
        SignedLicense { license: self.license.clone(), signature: self.signature.clone() }
    }
}

} // verus!
