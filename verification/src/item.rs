//! The payload that is being preserved.

use vstd::prelude::*;
use vstd::slice::slice_to_vec;
use vstd::std_specs::convert::FromSpecImpl;
use vstd::string::StringExecFns;
use vstd::string::StringSliceAdditionalSpecFns;
use vstd::utf8::encode_utf8;

verus! {

/// Pis Aller. If all else fails, we are at the mercy of our logs.
#[derive(Debug, Clone)]
pub enum PisAller {
    Bin(Box<Vec<u8>>),
    Json(String),
    String(String),
    RustString(String),
}

/// What a [`PisAller`] holds, as mathematical sequences.
pub enum Payload {
    Bin(Seq<u8>),
    Json(Seq<char>),
    String(Seq<char>),
    RustString(Seq<char>),
}

impl Payload {
    /// The format tag of each variant. It depends on the variant alone.
    pub open spec fn format(self) -> Seq<char> {
        match self {
            Payload::Bin(_) => "bin"@,
            Payload::Json(_) => "json"@,
            Payload::String(_) => "txt"@,
            Payload::RustString(_) => "rson"@,
        }
    }

    /// The raw bytes that stand for the payload in a file: the bytes
    /// themselves, or the UTF-8 encoding of the text.
    pub open spec fn bytes(self) -> Seq<u8> {
        match self {
            Payload::Bin(b) => b,
            Payload::Json(s) => encode_utf8(s),
            Payload::String(s) => encode_utf8(s),
            Payload::RustString(s) => encode_utf8(s),
        }
    }

    /// Whether two payloads are of the same variant.
    pub open spec fn same_variant(self, other: Payload) -> bool {
        ||| self is Bin && other is Bin
        ||| self is Json && other is Json
        ||| self is String && other is String
        ||| self is RustString && other is RustString
    }
}

/// The format tag goes by the variant and by nothing else: two payloads have
/// the same tag if and only if they are of the same variant, whatever they
/// hold.
pub proof fn lemma_format_goes_by_variant(a: Payload, b: Payload)
    ensures
        a.format() == b.format() <==> a.same_variant(b),
{
    lemma_format_spelled_out(a);
    lemma_format_spelled_out(b);
}

/// The four tags, letter by letter.
pub proof fn lemma_format_spelled_out(payload: Payload)
    ensures
        payload is Bin ==> payload.format() == seq!['b', 'i', 'n'],
        payload is Json ==> payload.format() == seq!['j', 's', 'o', 'n'],
        payload is String ==> payload.format() == seq!['t', 'x', 't'],
        payload is RustString ==> payload.format() == seq!['r', 's', 'o', 'n'],
{
    reveal_strlit("bin");
    reveal_strlit("json");
    reveal_strlit("txt");
    reveal_strlit("rson");
    assert("bin"@ =~= seq!['b', 'i', 'n']);
    assert("json"@ =~= seq!['j', 's', 'o', 'n']);
    assert("txt"@ =~= seq!['t', 'x', 't']);
    assert("rson"@ =~= seq!['r', 's', 'o', 'n']);
}

impl View for PisAller {
    type V = Payload;

    open spec fn view(&self) -> Payload {
        match self {
            PisAller::Bin(b) => Payload::Bin(b@),
            PisAller::Json(s) => Payload::Json(s@),
            PisAller::String(s) => Payload::String(s@),
            PisAller::RustString(s) => Payload::RustString(s@),
        }
    }
}

impl PisAller {
    /// The file extension under which the payload is stored.
    pub fn format(&self) -> (tag: &'static str)
        ensures
            tag@ == self@.format(),
    {
        match self {
            PisAller::Bin(_) => "bin",
            PisAller::Json(_) => "json",
            PisAller::String(_) => "txt",
            PisAller::RustString(_) => "rson",
        }
    }

    /// The bytes that are written when the payload goes to a file.
    pub fn bytes(&self) -> (raw: &[u8])
        ensures
            raw@ == self@.bytes(),
    {
        match self {
            PisAller::Bin(b) => b.as_slice(),
            PisAller::Json(s) => s.as_str().as_bytes(),
            PisAller::String(s) => s.as_str().as_bytes(),
            PisAller::RustString(s) => s.as_str().as_bytes(),
        }
    }
}

impl From<&[u8]> for PisAller {
    /// Copies the bytes into a binary payload.
    fn from(value: &[u8]) -> (payload: Self)
        ensures
            payload@ == Payload::Bin(value@),
    {
        Self::Bin(Box::new(slice_to_vec(value)))
    }
}

/// The payload holds a copy of the bytes, in a vector of its own. Which
/// vector that is cannot be said before it is made, so `from` states its
/// result by what the payload holds, and promises no particular value.
impl FromSpecImpl<&[u8]> for PisAller {
    open spec fn obeys_from_spec() -> bool {
        false
    }

    open spec fn from_spec(value: &[u8]) -> Self {
        choose|payload: PisAller| payload@ == Payload::Bin(value@)
    }
}

impl From<String> for PisAller {
    /// Wraps the text as a plain-text payload.
    fn from(value: String) -> (payload: Self)
        ensures
            payload@ == Payload::String(value@),
    {
        Self::String(value)
    }
}

/// The payload holds the very string it was given.
impl FromSpecImpl<String> for PisAller {
    open spec fn obeys_from_spec() -> bool {
        true
    }

    open spec fn from_spec(value: String) -> Self {
        PisAller::String(value)
    }
}

impl From<&str> for PisAller {
    /// Copies the text into a plain-text payload.
    fn from(value: &str) -> (payload: Self)
        ensures
            payload@ == Payload::String(value@),
    {
        Self::String(String::from_str(value))
    }
}

/// The payload holds a copy of the text, in a string of its own. Which
/// string that is cannot be said before it is made, so `from` states its
/// result by what the payload holds, and promises no particular value.
impl FromSpecImpl<&str> for PisAller {
    open spec fn obeys_from_spec() -> bool {
        false
    }

    open spec fn from_spec(value: &str) -> Self {
        choose|payload: PisAller| payload@ == Payload::String(value@)
    }
}

} // verus!
