use vstd::prelude::*;
use vstd::slice::slice_to_vec;
use vstd::utf8::{decode_utf8, encode_utf8, valid_utf8};

use crate::command::utf8_text;

verus! {

/// A value of the host's raw byte-array type, `bytea`: a buffer of bytes that
/// a native function takes from or hands back to the host.
#[derive(Debug, Clone)]
pub struct Bytea {
    bytes: Vec<u8>,
}

impl View for Bytea {
    type V = Seq<u8>;

    closed spec fn view(&self) -> Seq<u8> {
        self.bytes@
    }
}

/// Relies on `std::str::from_utf8_mut`: the text that the bytes encode where
/// they are valid UTF-8, and nothing otherwise; what is written through the
/// text is written to the bytes.
#[verifier::external_body]
fn utf8_text_mut(b: &mut [u8]) -> (r: Option<&mut str>)
    ensures
        r is Some <==> valid_utf8(old(b)@),
        match r {
            Some(s) => (*s)@ == decode_utf8(old(b)@) && final(b)@ == encode_utf8(final(s)@),
            None => final(b)@ == old(b)@,
        },
{
    std::str::from_utf8_mut(b).ok()
}

impl Bytea {
    /// A buffer of `sz` bytes, each zero, ready to be filled through `as_mut`.
    pub fn palloc(sz: usize) -> (r: Bytea)
        ensures
            r@ == Seq::new(sz as nat, |i: int| 0u8),
    {
        let mut bytes: Vec<u8> = Vec::new();
        let mut i: usize = 0;
        while i < sz
            invariant
                i <= sz,
                bytes@ == Seq::new(i as nat, |k: int| 0u8),
            decreases sz - i,
        {
            bytes.push(0u8);
            i = i + 1;
        }
        Bytea { bytes }
    }

    /// A buffer that holds a copy of `data`.
    pub fn from(data: &[u8]) -> (r: Bytea)
        ensures
            r@ == data@,
    {
        Bytea { bytes: slice_to_vec(data) }
    }

    /// The buffer's bytes.
    pub fn as_ref(&self) -> (r: &[u8])
        ensures
            r@ == self@,
    {
        self.bytes.as_slice()
    }

    /// The buffer's bytes, to be written in place; its length stays.
    pub fn as_mut(&mut self) -> (r: &mut [u8])
        ensures
            r@ == old(self)@,
            final(self)@ == final(r)@,
    {
        self.bytes.as_mut_slice()
    }

    /// The buffer as text, where it holds valid UTF-8.
    pub fn as_str(&self) -> (r: Option<&str>)
        ensures
            r is Some <==> valid_utf8(self@),
            r is Some ==> r->Some_0@ == decode_utf8(self@),
    {
        utf8_text(self.bytes.as_slice())
    }

    /// The buffer as text to be changed in place, where it holds valid UTF-8.
    pub fn as_str_mut(&mut self) -> (r: Option<&mut str>)
        ensures
            r is Some <==> valid_utf8(old(self)@),
            match r {
                Some(s) => (*s)@ == decode_utf8(old(self)@) && final(self)@ == encode_utf8(final(s)@),
                None => final(self)@ == old(self)@,
            },
    {
        utf8_text_mut(self.bytes.as_mut_slice())
    }

    /// The buffer as a value of the text type, where it holds valid UTF-8;
    /// `Err` otherwise.
    pub fn try_into(self) -> (r: Result<Text, ()>)
        ensures
            r is Ok <==> valid_utf8(self@),
            r is Ok ==> r->Ok_0@ == decode_utf8(self@),
    {
        match self.as_str() {
            Some(s) => Ok(Text { text: s.to_owned() }),
            None => Err(()),
        }
    }
}

/// A value of the host's text type: like `Bytea`, but always valid UTF-8.
/// The host's `varchar` and `bpchar` are the same type.
#[derive(Debug, Clone)]
pub struct Text {
    text: String,
}

impl View for Text {
    type V = Seq<char>;

    closed spec fn view(&self) -> Seq<char> {
        self.text@
    }
}

/// The host's `bpchar` type: the same as `Text`.
pub type BpChar = Text;

/// The host's `varchar` type: the same as `Text`.
pub type VarChar = Text;

impl Text {
    /// A text value that holds a copy of `content`.
    pub fn from(content: &str) -> (r: Text)
        ensures
            r@ == content@,
    {
        Text { text: String::from_str(content) }
    }

    /// The characters of the value.
    pub fn as_ref(&self) -> (r: &str)
        ensures
            r@ == self@,
    {
        self.text.as_str()
    }

    /// The value as an owned string, as it would be printed.
    pub fn to_string(&self) -> (r: String)
        ensures
            r@ == self@,
    {
        self.text.clone()
    }
}

} // verus!
