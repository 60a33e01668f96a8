//! Small helpers for strings: what a text can be given as, comparing two
//! string slices, and moving optional strings between their borrowed and
//! owned forms.
use vstd::prelude::*;
use vstd::utf8::{decode_utf8, encode_utf8, encode_utf8_decode_utf8};

verus! {

/// The characters of an optional string, whatever form the string is held in.
pub open spec fn text_of<T: View<V = Seq<char>>>(o: Option<T>) -> Option<Seq<char>> {
    match o {
        Some(s) => Some(s@),
        None => None,
    }
}

/// What the text of a component can be given as: a string slice or a
/// string. The characters are taken as they are.
pub trait IntoText: View<V = Seq<char>> + Sized {
    /// The text as an owned string.
    fn into_text(self) -> (r: String)
        ensures
            r@ == self@,
    ;
}

impl<'a> IntoText for &'a str {
    fn into_text(self) -> (r: String) {
        self.to_owned()
    }
}

impl IntoText for String {
    fn into_text(self) -> (r: String) {
        self
    }
}

impl<'a> IntoText for &'a String {
    fn into_text(self) -> (r: String) {
        self.clone()
    }
}

/// Whether two string slices hold the same characters.
///
/// The slices are compared byte by byte; two strings with the same UTF-8
/// encoding have the same characters, since decoding undoes encoding.
pub fn same_text(a: &str, b: &str) -> (r: bool)
    ensures
        r == (a@ == b@),
{
    let x = a.as_bytes();
    let y = b.as_bytes();
    proof {
        encode_utf8_decode_utf8(a@);
        encode_utf8_decode_utf8(b@);
    }
    if x.len() != y.len() {
        return false;
    }
    let mut i: usize = 0;
    while i < x.len()
        invariant
            i <= x.len(),
            x.len() == y.len(),
            forall|j: int| 0 <= j < i ==> x@[j] == y@[j],
            x@ == encode_utf8(a@),
            y@ == encode_utf8(b@),
            decode_utf8(encode_utf8(a@)) == a@,
            decode_utf8(encode_utf8(b@)) == b@,
        decreases x.len() - i,
    {
        if x[i] != y[i] {
            return false;
        }
        i = i + 1;
    }
    proof {
        assert(x@ =~= y@);
    }
    true
}

/// The owned form of an optional text.
pub fn owned_text<T: IntoText>(o: Option<T>) -> (r: Option<String>)
    ensures
        text_of(r) == text_of(o),
{
    match o {
        Some(s) => Some(s.into_text()),
        None => None,
    }
}

/// A fresh copy of an optional string.
pub fn copied_text(o: &Option<String>) -> (r: Option<String>)
    ensures
        text_of(r) == text_of(*o),
{
    match o {
        Some(s) => Some(s.clone()),
        None => None,
    }
}

/// A borrowed form of an optional string.
pub fn borrowed_text(o: &Option<String>) -> (r: Option<&String>)
    ensures
        text_of(r) == text_of(*o),
{
    match o {
        Some(s) => Some(s),
        None => None,
    }
}

} // verus!
