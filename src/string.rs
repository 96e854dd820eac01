//! The string bridge: host text to and from the engine's UTF-16 string record.
//!
//! A [`RawString`] is the record as the engine lays it out: a buffer of UTF-16
//! code units and, when the side that allocated the buffer hands it over, a
//! destructor that frees it. Exactly one side owns a buffer at a time. A
//! [`CefString`] is a record that the host owns.
use crate::utf16::{
    decode_utf16, decode_utf16_lossy, encode_str, encode_utf16, lemma_decode_encode_utf16,
};
use vstd::prelude::*;
use vstd::string::StringSliceAdditionalSpecFns;
use vstd::utf8::{decode_utf8, encode_utf8_decode_utf8, encode_utf8_valid_utf8, valid_utf8};

verus! {

/// The engine's UTF-16 string record.
pub struct RawString {
    /// The buffer; its length is the record's length.
    pub units: Vec<u16>,
    /// Whether the record carries a destructor for its buffer, which makes whoever
    /// holds the record responsible for freeing it.
    pub dtor: bool,
}

/// The native conversion found the text invalid.
#[derive(Debug, Clone, Copy, PartialEq, Eq, Structural)]
pub struct EncodingError;

impl RawString {
    /// The zeroed record: no buffer, no destructor.
    pub open spec fn is_null(&self) -> bool {
        self.units@.len() == 0 && !self.dtor
    }
}

/// `after` is `before` released: the destructor ran exactly when `before` carried
/// one (`invoked`), and the record is zeroed.
pub open spec fn released(before: RawString, after: RawString, invoked: bool) -> bool {
    invoked == before.dtor && after.is_null()
}

/// Runs the record's destructor on its buffer, if it carries one, and zeroes the
/// record. Returns whether a destructor ran. Safe on a zeroed record, where it does
/// nothing.
pub fn free_cef_string(s: &mut RawString) -> (invoked: bool)
    ensures
        released(*old(s), *final(s), invoked),
{
    let invoked = s.dtor;
    *s = CefString::null();
    invoked
}

/// Law: releasing a record twice runs its destructor at most once; the second
/// release finds no destructor and leaves the zeroed record zeroed.
pub proof fn lemma_release_twice(
    first: RawString,
    once: RawString,
    twice: RawString,
    invoked_first: bool,
    invoked_second: bool,
)
    requires
        released(first, once, invoked_first),
        released(once, twice, invoked_second),
    ensures
        invoked_first == first.dtor,
        !invoked_second,
        twice.is_null(),
{
}

/// Law: decoding the record that encoding `s` produced gives `s` back, for every
/// string; no character is lost or replaced on the way.
pub proof fn lemma_decode_after_encode(s: Seq<char>, encoded: RawString)
    requires
        encoded.units@ == encode_utf16(s),
    ensures
        decode_utf16_lossy(encoded.units@) == s,
{
    lemma_decode_encode_utf16(s);
}

/// Relies on `std::str::from_utf8`: it accepts exactly the valid UTF-8 byte
/// sequences, and the string slice it returns holds those same bytes.
#[verifier::external_body]
fn str_from_utf8(bytes: &[u8]) -> (r: Option<&str>)
    ensures
        r is Some <==> valid_utf8(bytes@),
        r is Some ==> r->0.spec_bytes() == bytes@,
{
    match std::str::from_utf8(bytes) {
        Ok(s) => Some(s),
        Err(_) => None,
    }
}

/// Converts UTF-8 bytes to a record that owns a fresh UTF-16 buffer. Invalid UTF-8
/// is an [`EncodingError`].
pub fn utf8_to_utf16(bytes: &[u8]) -> (r: Result<RawString, EncodingError>)
    ensures
        r is Ok <==> valid_utf8(bytes@),
        r is Ok ==> r->Ok_0.units@ == encode_utf16(decode_utf8(bytes@)) && r->Ok_0.dtor,
{
    match str_from_utf8(bytes) {
        Some(s) => {
            proof {
                encode_utf8_decode_utf8(s@);
            }
            Ok(RawString { units: encode_str(s), dtor: true })
        },
        None => Err(EncodingError),
    }
}

/// Reads the text of a record, without taking its buffer over. Unpaired surrogates
/// become U+FFFD.
pub fn decode(s: &RawString) -> (r: String)
    ensures
        r@ == decode_utf16_lossy(s.units@),
{
    decode_utf16(s.units.as_slice())
}

/// A string record that the host owns.
pub struct CefString {
    raw: RawString,
    dtor_calls: Ghost<nat>,
}

impl CefString {
    /// The record this string holds.
    pub closed spec fn raw(&self) -> RawString {
        self.raw
    }

    /// How many times this string has run a record's destructor.
    pub closed spec fn dtor_calls(&self) -> nat {
        self.dtor_calls@
    }

    /// The destructor calls that releasing `raw` makes: one when it carries a
    /// destructor.
    pub open spec fn dtor_calls_of(raw: RawString) -> nat {
        if raw.dtor {
            1
        } else {
            0
        }
    }

    /// A zeroed record.
    pub fn null() -> (r: RawString)
        ensures
            r.is_null(),
    {
        RawString { units: Vec::new(), dtor: false }
    }

    /// Encodes `s` into a fresh buffer. Text that is already a `str` is valid, so
    /// this always succeeds.
    pub fn new(s: &str) -> (r: Result<Self, EncodingError>)
        ensures
            r is Ok,
            r is Ok ==> r->Ok_0.raw().units@ == encode_utf16(s@) && r->Ok_0.raw().dtor
                && r->Ok_0.dtor_calls() == 0,
    {
        let raw = Self::utf8_to(s)?;
        Ok(CefString { raw, dtor_calls: Ghost(0) })
    }

    /// Encodes UTF-8 bytes into a fresh buffer; invalid UTF-8 is an
    /// [`EncodingError`].
    pub fn from_utf8(bytes: &[u8]) -> (r: Result<Self, EncodingError>)
        ensures
            r is Ok <==> valid_utf8(bytes@),
            r is Ok ==> r->Ok_0.raw().units@ == encode_utf16(decode_utf8(bytes@))
                && r->Ok_0.raw().dtor && r->Ok_0.dtor_calls() == 0,
    {
        let raw = utf8_to_utf16(bytes)?;
        Ok(CefString { raw, dtor_calls: Ghost(0) })
    }

    /// Frees the current buffer, running its destructor when the record carries
    /// one, and then encodes `s` in its place.
    pub fn set(&mut self, s: &str) -> (r: Result<(), EncodingError>)
        ensures
            r is Ok,
            final(self).dtor_calls() == old(self).dtor_calls() + Self::dtor_calls_of(
                old(self).raw(),
            ),
            final(self).raw().units@ == encode_utf16(s@),
            final(self).raw().dtor,
    {
        self.free();
        self.raw = Self::utf8_to(s)?;
        Ok(())
    }

    /// Hands the record, and with it the buffer, to the caller. Nothing of this
    /// string frees the buffer afterwards.
    pub fn into_raw(self) -> (r: RawString)
        ensures
            r == self.raw(),
    {
        self.raw
    }

    /// The record, lent for a native call that only reads it.
    pub fn as_raw(&self) -> (r: &RawString)
        ensures
            *r == self.raw(),
    {
        &self.raw
    }

    /// The text of this string.
    pub fn to_string_lossy(&self) -> (r: String)
        ensures
            r@ == decode_utf16_lossy(self.raw().units@),
    {
        decode(&self.raw)
    }

    /// Frees the buffer through the record's destructor and zeroes the record.
    pub fn free(&mut self) -> (invoked: bool)
        ensures
            released(old(self).raw(), final(self).raw(), invoked),
            final(self).dtor_calls() == old(self).dtor_calls() + Self::dtor_calls_of(
                old(self).raw(),
            ),
    {
        let invoked = free_cef_string(&mut self.raw);
        proof {
            self.dtor_calls@ = self.dtor_calls@ + Self::dtor_calls_of(old(self).raw);
        }
        invoked
    }

    fn utf8_to(s: &str) -> (r: Result<RawString, EncodingError>)
        ensures
            r is Ok,
            r is Ok ==> r->Ok_0.units@ == encode_utf16(s@) && r->Ok_0.dtor,
    {
        proof {
            encode_utf8_valid_utf8(s@);
            encode_utf8_decode_utf8(s@);
        }
        utf8_to_utf16(s.as_bytes())
    }
}

} // verus!
