//! Zenoh device-id newtype.
//!
//! Canonical form: lowercase hex, no separators, length 2..=32.
//! Parsing and validation live here; no other module is allowed to
//! roundtrip a raw `String` for a ZID.

use vstd::prelude::*;

use crate::text::{chars_of, string_of};

verus! {

/// Characters allowed in a device id: `0-9` and `a-f`.
pub open spec fn is_zid_char(c: char) -> bool {
    ('0' <= c && c <= '9') || ('a' <= c && c <= 'f')
}

/// Shortest and longest accepted device id.
pub const ZID_MIN_LEN: usize = 2;
pub const ZID_MAX_LEN: usize = 32;

/// A well-formed device id: 2..=32 lowercase hex characters.
pub open spec fn is_valid_zid(s: Seq<char>) -> bool {
    &&& ZID_MIN_LEN <= s.len() <= ZID_MAX_LEN
    &&& forall|i: int| 0 <= i < s.len() ==> #[trigger] is_zid_char(s[i])
}

/// Why a raw string is not a device id.
#[derive(Debug, Clone, Copy, PartialEq, Eq, Structural)]
pub enum ZidError {
    /// Fewer than 2 or more than 32 characters.
    BadLength,
    /// A character outside `0-9a-f`.
    NotLowercaseHex,
}

/// The error that `Zid::new` reports for `s`, if any.
pub open spec fn zid_error(s: Seq<char>) -> Option<ZidError> {
    if !(ZID_MIN_LEN <= s.len() <= ZID_MAX_LEN) {
        Some(ZidError::BadLength)
    } else if exists|i: int| 0 <= i < s.len() && !#[trigger] is_zid_char(s[i]) {
        Some(ZidError::NotLowercaseHex)
    } else {
        None
    }
}

pub open spec fn zid_error_message(e: ZidError) -> Seq<char> {
    match e {
        ZidError::BadLength => "zid must be 2 to 32 characters long"@,
        ZidError::NotLowercaseHex => "zid must be lowercase hex"@,
    }
}

impl ZidError {
    /// Human-readable description of the error.
    pub fn message(&self) -> (m: String)
        ensures
            m@ == zid_error_message(*self),
    {
        match self {
            ZidError::BadLength => String::from_str("zid must be 2 to 32 characters long"),
            ZidError::NotLowercaseHex => String::from_str("zid must be lowercase hex"),
        }
    }
}

/// A validated device id.
#[derive(Debug, PartialEq, Eq, Hash)]
pub struct Zid {
    id: String,
}

impl Zid {
    #[verifier::type_invariant]
    spec fn well_formed(self) -> bool {
        is_valid_zid(self.id@)
    }

    /// The characters of the id.
    pub closed spec fn view(self) -> Seq<char> {
        self.id@
    }

    /// Validates `raw` and wraps it.
    pub fn new(raw: &str) -> (r: Result<Zid, ZidError>)
        ensures
            match zid_error(raw@) {
                Some(e) => r == Err::<Zid, ZidError>(e),
                None => r matches Ok(z) && z.view() == raw@,
            },
            r is Ok <==> is_valid_zid(raw@),
    {
        let cs = chars_of(raw);
        Self::from_chars(&cs)
    }

    /// Validates a run of characters and wraps it.
    pub fn from_chars(cs: &[char]) -> (r: Result<Zid, ZidError>)
        ensures
            match zid_error(cs@) {
                Some(e) => r == Err::<Zid, ZidError>(e),
                None => r matches Ok(z) && z.view() == cs@,
            },
            r is Ok <==> is_valid_zid(cs@),
    {
        let n = cs.len();
        if n < ZID_MIN_LEN || n > ZID_MAX_LEN {
            return Err(ZidError::BadLength);
        }
        for i in 0..n
            invariant
                n == cs@.len(),
                ZID_MIN_LEN <= n <= ZID_MAX_LEN,
                forall|j: int| 0 <= j < i ==> #[trigger] is_zid_char(cs@[j]),
        {
            let c = cs[i];
            if !(('0' <= c && c <= '9') || ('a' <= c && c <= 'f')) {
                assert(!is_zid_char(cs@[i as int]));
                return Err(ZidError::NotLowercaseHex);
            }
        }
        Ok(Zid { id: string_of(cs) })
    }

    /// The id as text.
    pub fn as_str(&self) -> (s: &str)
        ensures
            s@ == self.view(),
            is_valid_zid(self.view()),
    {
        proof {
            use_type_invariant(self);
        }
        self.id.as_str()
    }

    /// A copy of the id.
    pub fn duplicate(&self) -> (z: Zid)
        ensures
            z.view() == self.view(),
    {
        proof {
            use_type_invariant(self);
        }
        Zid { id: self.id.clone() }
    }
}

/// `Zid::new` accepts exactly the well-formed ids, so the text of any
/// `Zid` is accepted again and gives the same id.
pub proof fn law_zid_accepts_exactly_valid(s: Seq<char>)
    ensures
        zid_error(s) is None <==> is_valid_zid(s),
{
}

} // verus!
