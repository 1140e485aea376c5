//! A walk over the DER encoding of a PKCS#1 key.
//!
//! The RSA library reads a key with a general ASN.1 reader, which follows
//! nested elements as deep as they go. While it reads a private key it
//! reduces the private exponent modulo each prime less one, which fails hard
//! for a prime of zero or one. And while it signs it adds the first prime to
//! a number that may be as far below zero as the second prime is large,
//! until the number is no longer negative, which takes as many rounds as
//! the second prime is larger than the first.
//!
//! The walk here admits the plain layout of a key and nothing else: one
//! sequence that fills the bytes and holds integers only, with primes of at
//! least two, the second at most a few bits longer than the first. Bytes
//! that are laid out otherwise are turned away before the RSA library sees
//! them.

use vstd::prelude::*;

verus! {

/// The tag byte of a DER sequence.
pub const TAG_SEQUENCE: u8 = 0x30;

/// The tag byte of a DER integer.
pub const TAG_INTEGER: u8 = 0x02;

/// The length field at `at`: the length that it gives, and the position
/// behind it. The short form and the long forms of one and two bytes are
/// read; longer forms are turned away.
pub open spec fn der_length(der: Seq<u8>, at: int) -> Option<(int, int)> {
    if at < 0 || at >= der.len() {
        None
    } else if der[at] < 0x80 {
        Some((der[at] as int, at + 1))
    } else if der[at] == 0x81 && at + 1 < der.len() {
        Some((der[at + 1] as int, at + 2))
    } else if der[at] == 0x82 && at + 2 < der.len() {
        Some((der[at + 1] * 256 + der[at + 2], at + 3))
    } else {
        None
    }
}

/// The element with tag byte `tag` at `at`, inside a region that ends at
/// `end`: the positions where its contents start and end.
pub open spec fn der_element(der: Seq<u8>, at: int, end: int, tag: u8) -> Option<(int, int)> {
    if 0 <= at < end <= der.len() && der[at] == tag {
        match der_length(der, at + 1) {
            Some((len, start)) => if start + len <= end {
                Some((start, start + len))
            } else {
                None
            },
            None => None,
        }
    } else {
        None
    }
}

/// The position behind `count` integers that follow one another from `at`.
pub open spec fn after_integers(der: Seq<u8>, at: int, end: int, count: nat) -> Option<int>
    decreases count,
{
    if count == 0 {
        Some(at)
    } else {
        match der_element(der, at, end, 0x02) {
            Some((_, next)) => after_integers(der, next, end, (count - 1) as nat),
            None => None,
        }
    }
}

/// Whether the bytes from `start` to `end` are a big-endian two's complement
/// number that is at least two: not empty, the sign bit clear, and more
/// than a one in the last place.
pub open spec fn at_least_two(der: Seq<u8>, start: int, end: int) -> bool {
    &&& 0 <= start < end <= der.len()
    &&& der[start] < 0x80
    &&& (der[end - 1] >= 2 || exists|i: int| start <= i < end - 1 && der[i] != 0)
}

/// The number of bits of a byte: the place of its highest bit that is set.
pub open spec fn byte_bits(byte: u8) -> int {
    if byte >= 128 {
        8
    } else if byte >= 64 {
        7
    } else if byte >= 32 {
        6
    } else if byte >= 16 {
        5
    } else if byte >= 8 {
        4
    } else if byte >= 4 {
        3
    } else if byte >= 2 {
        2
    } else if byte >= 1 {
        1
    } else {
        0
    }
}

/// The number of bits of the big-endian number in the bytes from `start` to
/// `end`: zero bytes in front do not count, and the first byte that is not
/// zero counts from its highest bit that is set.
pub open spec fn number_bits(der: Seq<u8>, start: int, end: int) -> int
    decreases end - start,
{
    if start < 0 || start >= end || end > der.len() {
        0
    } else if der[start] == 0 {
        number_bits(der, start + 1, end)
    } else {
        8 * (end - start - 1) + byte_bits(der[start])
    }
}

/// The size of a public key in bits: the number of bits of its modulus,
/// which is the first integer of the sequence. Zero where the bytes hold no
/// such integer.
pub open spec fn public_key_bits(der: Seq<u8>) -> int {
    match der_element(der, 0, der.len() as int, 0x30) {
        Some((start, end)) => match der_element(der, start, end, 0x02) {
            Some((n_start, n_end)) => number_bits(der, n_start, n_end),
            None => 0,
        },
        None => 0,
    }
}

/// The size of a private key in bits: the number of bits of its modulus,
/// which is the second integer of the sequence, behind the version. Zero
/// where the bytes hold no such integer.
pub open spec fn private_key_bits(der: Seq<u8>) -> int {
    match der_element(der, 0, der.len() as int, 0x30) {
        Some((start, end)) => match der_element(der, start, end, 0x02) {
            Some((_, next)) => match der_element(der, next, end, 0x02) {
                Some((n_start, n_end)) => number_bits(der, n_start, n_end),
                None => 0,
            },
            None => 0,
        },
        None => 0,
    }
}

/// Whether `der` is laid out as a PKCS#1 public key: one sequence that fills
/// the bytes and holds two integers, the modulus and the exponent.
pub open spec fn public_key_layout(der: Seq<u8>) -> bool {
    match der_element(der, 0, der.len() as int, 0x30) {
        Some((start, end)) => end == der.len() && after_integers(der, start, end, 2) == Some(end),
        None => false,
    }
}

/// How many bits the second prime of a private key may be longer than the
/// first.
pub const PRIME_BITS_APART: usize = 8;

/// Whether `der` is laid out as a PKCS#1 private key with two primes: one
/// sequence that fills the bytes and holds nine integers, the version, the
/// modulus, the two exponents, the two primes, the two reduced exponents
/// and the coefficient; both primes are at least two; and the second prime
/// is at most `PRIME_BITS_APART` bits longer than the first.
pub open spec fn private_key_layout(der: Seq<u8>) -> bool {
    match der_element(der, 0, der.len() as int, 0x30) {
        Some((start, end)) => match after_integers(der, start, end, 4) {
            Some(first) => match der_element(der, first, end, 0x02) {
                Some((p_start, p_end)) => match der_element(der, p_end, end, 0x02) {
                    Some((q_start, q_end)) => {
                        &&& end == der.len()
                        &&& at_least_two(der, p_start, p_end)
                        &&& at_least_two(der, q_start, q_end)
                        &&& number_bits(der, q_start, q_end) <= number_bits(der, p_start, p_end)
                            + 8
                        &&& after_integers(der, q_end, end, 3) == Some(end)
                    },
                    None => false,
                },
                None => false,
            },
            None => false,
        },
        None => false,
    }
}

/// Reads the length field at `at`.
fn read_length(der: &[u8], at: usize) -> (r: Option<(usize, usize)>)
    ensures
        match r {
            Some((len, next)) => der_length(der@, at as int) == Some((len as int, next as int)),
            None => der_length(der@, at as int) is None,
        },
{
    if at >= der.len() {
        return None;
    }
    let first: u8 = der[at];
    if first < 0x80 {
        Some((first as usize, at + 1))
    } else if first == 0x81 && der.len() - at > 1 {
        Some((der[at + 1] as usize, at + 2))
    } else if first == 0x82 && der.len() - at > 2 {
        let high: usize = der[at + 1] as usize;
        let low: usize = der[at + 2] as usize;
        Some((high * 256 + low, at + 3))
    } else {
        None
    }
}

/// Reads the element with tag byte `tag` at `at`.
fn read_element(der: &[u8], at: usize, end: usize, tag: u8) -> (r: Option<(usize, usize)>)
    ensures
        match r {
            Some((start, stop)) => {
                &&& der_element(der@, at as int, end as int, tag) == Some(
                    (start as int, stop as int),
                )
                &&& start <= stop <= end <= der@.len()
                &&& stop - start <= 65_535
            },
            None => der_element(der@, at as int, end as int, tag) is None,
        },
{
    if at >= end || end > der.len() || der[at] != tag {
        return None;
    }
    match read_length(der, at + 1) {
        None => None,
        Some((len, start)) => {
            if len <= end && start <= end - len {
                Some((start, start + len))
            } else {
                None
            }
        },
    }
}

/// Steps over `count` integers that follow one another from `at`.
fn skip_integers(der: &[u8], at: usize, end: usize, count: usize) -> (r: Option<usize>)
    ensures
        match r {
            Some(next) => after_integers(der@, at as int, end as int, count as nat) == Some(
                next as int,
            ),
            None => after_integers(der@, at as int, end as int, count as nat) is None,
        },
{
    let mut position: usize = at;
    let mut left: usize = count;
    while left > 0
        invariant
            after_integers(der@, at as int, end as int, count as nat) == after_integers(
                der@,
                position as int,
                end as int,
                left as nat,
            ),
        decreases left,
    {
        match read_element(der, position, end, TAG_INTEGER) {
            Some((_, next)) => {
                position = next;
            },
            None => {
                return None;
            },
        }
        left -= 1;
    }
    Some(position)
}

/// Whether the bytes from `start` to `end` are a number of at least two.
fn is_at_least_two(der: &[u8], start: usize, end: usize) -> (r: bool)
    ensures
        r == at_least_two(der@, start as int, end as int),
{
    if start >= end || end > der.len() || der[start] >= 0x80 {
        return false;
    }
    if der[end - 1] >= 2 {
        return true;
    }
    let mut i: usize = start;
    while i < end - 1
        invariant
            start <= i <= end - 1,
            end <= der@.len(),
            der@[start as int] < 0x80,
            der@[end - 1] < 2,
            forall|j: int| start <= j < i ==> der@[j] == 0,
        decreases end - i,
    {
        if der[i] != 0 {
            assert(start <= i < end - 1 && der@[i as int] != 0);
            return true;
        }
        i += 1;
    }
    false
}

/// Counts the bits of a byte.
fn count_byte_bits(byte: u8) -> (r: usize)
    ensures
        r == byte_bits(byte),
{
    if byte >= 128 {
        8
    } else if byte >= 64 {
        7
    } else if byte >= 32 {
        6
    } else if byte >= 16 {
        5
    } else if byte >= 8 {
        4
    } else if byte >= 4 {
        3
    } else if byte >= 2 {
        2
    } else if byte >= 1 {
        1
    } else {
        0
    }
}

/// Counts the bits of the big-endian number in the bytes from `start` to
/// `end`.
fn count_bits(der: &[u8], start: usize, end: usize) -> (r: usize)
    requires
        start <= end <= der@.len(),
        end - start <= 65_535,
    ensures
        r == number_bits(der@, start as int, end as int),
        r <= 8 * (end - start),
{
    let mut i: usize = start;
    while i < end
        invariant
            start <= i <= end <= der@.len(),
            end - start <= 65_535,
            number_bits(der@, start as int, end as int) == number_bits(der@, i as int, end as int),
        decreases end - i,
    {
        if der[i] != 0 {
            return 8 * (end - i - 1) + count_byte_bits(der[i]);
        }
        i += 1;
    }
    0
}

/// The size in bits of the public key that `der` holds.
pub fn public_key_size(der: &[u8]) -> (r: usize)
    ensures
        r == public_key_bits(der@),
{
    match read_element(der, 0, der.len(), TAG_SEQUENCE) {
        None => 0,
        Some((start, end)) => match read_element(der, start, end, TAG_INTEGER) {
            None => 0,
            Some((n_start, n_end)) => count_bits(der, n_start, n_end),
        },
    }
}

/// The size in bits of the private key that `der` holds.
pub fn private_key_size(der: &[u8]) -> (r: usize)
    ensures
        r == private_key_bits(der@),
{
    match read_element(der, 0, der.len(), TAG_SEQUENCE) {
        None => 0,
        Some((start, end)) => match read_element(der, start, end, TAG_INTEGER) {
            None => 0,
            Some((_, next)) => match read_element(der, next, end, TAG_INTEGER) {
                None => 0,
                Some((n_start, n_end)) => count_bits(der, n_start, n_end),
            },
        },
    }
}

/// Whether `der` is laid out as a PKCS#1 public key.
pub fn is_public_key_layout(der: &[u8]) -> (r: bool)
    ensures
        r == public_key_layout(der@),
{
    match read_element(der, 0, der.len(), TAG_SEQUENCE) {
        None => false,
        Some((start, end)) => match skip_integers(der, start, end, 2) {
            None => false,
            Some(last) => end == der.len() && last == end,
        },
    }
}

/// Whether `der` is laid out as a PKCS#1 private key with two primes that
/// are both at least two, the second at most `PRIME_BITS_APART` bits longer
/// than the first.
pub fn is_private_key_layout(der: &[u8]) -> (r: bool)
    ensures
        r == private_key_layout(der@),
{
    let (start, end) = match read_element(der, 0, der.len(), TAG_SEQUENCE) {
        Some(bounds) => bounds,
        None => {
            return false;
        },
    };
    let first = match skip_integers(der, start, end, 4) {
        Some(first) => first,
        None => {
            return false;
        },
    };
    let (p_start, p_end) = match read_element(der, first, end, TAG_INTEGER) {
        Some(bounds) => bounds,
        None => {
            return false;
        },
    };
    let (q_start, q_end) = match read_element(der, p_end, end, TAG_INTEGER) {
        Some(bounds) => bounds,
        None => {
            return false;
        },
    };
    let last = skip_integers(der, q_end, end, 3);
    end == der.len() && is_at_least_two(der, p_start, p_end) && is_at_least_two(
        der,
        q_start,
        q_end,
    ) && count_bits(der, q_start, q_end) <= count_bits(der, p_start, p_end) + PRIME_BITS_APART
        && last == Some(end)
}

} // verus!
