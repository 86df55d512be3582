//! Comparing strings, and byte texts.
use vstd::prelude::*;
use vstd::string::StrSliceExecFns;
use vstd::utf8::encode_utf8;

verus! {

/// Character-by-character equality of two strings.
pub fn str_equal(a: &str, b: &str) -> (r: bool)
    ensures
        r == (a@ == b@),
{
    let n = a.unicode_len();
    if n != b.unicode_len() {
        return false;
    }
    let mut i: usize = 0;
    while i < n
        invariant
            n == a@.len(),
            n == b@.len(),
            i <= n,
            forall|j: int| 0 <= j < i ==> a@[j] == b@[j],
        decreases n - i,
    {
        if a.get_char(i) != b.get_char(i) {
            return false;
        }
        i = i + 1;
    }
    assert(a@ =~= b@);
    true
}

/// A sequence of bytes with its length.
#[derive(Debug)]
pub struct Text {
    bytes: Vec<u8>,
    length: i32,
}

impl View for Text {
    type V = Seq<u8>;

    closed spec fn view(&self) -> Seq<u8> {
        self.bytes@
    }
}

impl Text {
    #[verifier::type_invariant]
    spec fn length_matches(&self) -> bool {
        self.length as int == self.bytes@.len()
    }

    /// The UTF-8 bytes of `s`.
    pub fn encode(s: &str, replace: bool) -> (r: &[u8])
        ensures
            r@ == encode_utf8(s@),
    {
        s.as_bytes()
    }

    /// The text of the given bytes.
    pub fn from_bytes(bytes: Vec<u8>) -> (r: Text)
        requires
            bytes@.len() <= i32::MAX,
        ensures
            r@ == bytes@,
    {
        let length = bytes.len() as i32;
        Text { bytes, length }
    }

    /// The text of the UTF-8 bytes of `s`.
    pub fn from_string(s: &str) -> (r: Text)
        requires
            encode_utf8(s@).len() <= i32::MAX,
        ensures
            r@ == encode_utf8(s@),
    {
        Text::from_bytes(vstd::slice::slice_to_vec(Text::encode(s, true)))
    }

    pub fn get_bytes(&self) -> (r: &[u8])
        ensures
            r@ == self@,
    {
        self.bytes.as_slice()
    }

    pub fn get_length(&self) -> (r: i32)
        ensures
            r == self@.len(),
    {
        proof {
            use_type_invariant(self);
        }
        self.length
    }
}

} // verus!
