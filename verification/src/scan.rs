//! A count of the members of a JSON object, made on its bytes.
//!
//! The JSON reader keeps one value for each name, so an object in which a
//! name comes twice reads like one in which it comes once. The count here
//! tells the two apart: it walks the bytes, keeps track of strings and of
//! how deep the brackets are nested, and counts the colons at the first
//! level, of which an object has one for each member.

use vstd::prelude::*;

verus! {

/// Where a walk over JSON bytes stands.
pub struct Scan {
    /// How many brackets and braces are open.
    pub depth: int,
    /// Whether the walk is inside a string.
    pub in_string: bool,
    /// Whether the byte before was a backslash that escapes this one.
    pub escaped: bool,
    /// How many colons were seen at the first level, outside strings.
    pub members: int,
}

/// Where the walk stands before the first byte.
pub open spec fn scan_start() -> Scan {
    Scan { depth: 0, in_string: false, escaped: false, members: 0 }
}

/// Where the walk stands one byte on. Inside a string only a backslash and
/// a quote matter; outside, a quote opens a string, brackets and braces
/// change the depth, and a colon at the first level counts a member.
pub open spec fn scan_step(at: Scan, byte: u8) -> Scan {
    if at.in_string {
        if at.escaped {
            Scan { escaped: false, ..at }
        } else if byte == 0x5c {
            Scan { escaped: true, ..at }
        } else if byte == 0x22 {
            Scan { in_string: false, ..at }
        } else {
            at
        }
    } else if byte == 0x22 {
        Scan { in_string: true, ..at }
    } else if byte == 0x7b || byte == 0x5b {
        Scan { depth: at.depth + 1, ..at }
    } else if byte == 0x7d || byte == 0x5d {
        Scan { depth: if at.depth > 0 { at.depth - 1 } else { 0 }, ..at }
    } else if byte == 0x3a && at.depth == 1 {
        Scan { members: at.members + 1, ..at }
    } else {
        at
    }
}

/// Where the walk stands behind the first `upto` bytes of `doc`.
pub open spec fn scan(doc: Seq<u8>, upto: int) -> Scan
    decreases upto,
{
    if upto <= 0 {
        scan_start()
    } else {
        scan_step(scan(doc, upto - 1), doc[upto - 1])
    }
}

/// The number of members that the bytes of a JSON object write down: its
/// colons at the first level, outside strings. A name that is written
/// twice counts twice.
pub open spec fn member_count(doc: Seq<u8>) -> int {
    scan(doc, doc.len() as int).members
}

/// Counts the members that the bytes of a JSON object write down.
pub fn count_members(doc: &[u8]) -> (r: usize)
    ensures
        r == member_count(doc@),
{
    let mut depth: usize = 0;
    let mut in_string = false;
    let mut escaped = false;
    let mut members: usize = 0;
    let mut i: usize = 0;
    while i < doc.len()
        invariant
            i <= doc@.len(),
            depth <= i,
            members <= i,
            scan(doc@, i as int) == (Scan {
                depth: depth as int,
                in_string,
                escaped,
                members: members as int,
            }),
        decreases doc@.len() - i,
    {
        let byte: u8 = doc[i];
        if in_string {
            if escaped {
                escaped = false;
            } else if byte == 0x5c {
                escaped = true;
            } else if byte == 0x22 {
                in_string = false;
            }
        } else if byte == 0x22 {
            in_string = true;
        } else if byte == 0x7b || byte == 0x5b {
            depth += 1;
        } else if byte == 0x7d || byte == 0x5d {
            if depth > 0 {
                depth -= 1;
            }
        } else if byte == 0x3a && depth == 1 {
            members += 1;
        }
        i += 1;
    }
    members
}

} // verus!
