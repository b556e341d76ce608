//! An owned buffer of secret bytes.

use crate::compare::{lemma_code_zero_iff_equal, secure_compare};
use vstd::prelude::*;
use vstd::std_specs::cmp::PartialEqSpec;
use vstd::std_specs::cmp::PartialEqSpecImpl;
use vstd::std_specs::convert::FromSpecImpl;
use vstd::string::StringExecFns;

verus! {

/// The character that stands for one hidden byte when a buffer is rendered.
pub const REDACTION_MARK: char = '*';

/// The rendering of any buffer of `n` bytes: `n` redaction marks.
pub open spec fn redaction(n: nat) -> Seq<char> {
    Seq::new(n, |i: int| REDACTION_MARK)
}

/// Temporary bytes: an owned copy of secret bytes that is compared through a comparison
/// that reads all of it, and rendered as redaction marks.
#[derive(Clone)]
pub struct Bytes(pub Vec<u8>);

impl View for Bytes {
    type V = Seq<u8>;

    open spec fn view(&self) -> Seq<u8> {
        self.0@
    }
}

impl Bytes {
    /// Copies `input` into a buffer of its own.
    pub fn new(input: &[u8]) -> (bytes: Bytes)
        ensures
            bytes@ == input@,
    {
        let input: Vec<u8> = vstd::slice::slice_to_vec(input);
        Bytes::from(input)
    }

    /// The bytes held, for reading.
    pub fn as_slice(&self) -> (held: &[u8])
        ensures
            held@ == self@,
    {
        self.0.as_slice()
    }

    /// Renders the buffer for logs and debuggers: one redaction mark for each byte, and
    /// nothing that depends on what the bytes are.
    pub fn redacted(&self) -> (text: String)
        ensures
            text@ == redaction(self@.len()),
    {
        let n: usize = self.0.len();
        let mut text = String::new();
        let mut i: usize = 0;
        while i < n
            invariant
                i <= n,
                text@ == redaction(i as nat),
            decreases n - i,
        {
            proof {
                reveal_strlit("*");
            }
            text.append("*");
            i += 1;
            assert(text@ =~= redaction(i as nat));
        }
        text
    }

    /// Tells whether the buffer holds exactly the bytes of `rhs`, leaving the comparison of
    /// the contents to `compare`. A `rhs` of another length is unequal, and `compare` is not
    /// called for it; for one of the same length `compare` is called once, on the whole of
    /// both, and its answer 0 means equal.
    pub fn eq_with<F: FnOnce(&[u8], &[u8]) -> i32>(&self, rhs: &[u8], compare: F) -> (same: bool)
        requires
            self@.len() == rhs@.len() ==> forall|own: &[u8]|
                own@ == self@ ==> call_requires(compare, (own, rhs)),
        ensures
            self@.len() != rhs@.len() ==> !same,
            self@.len() == rhs@.len() ==> exists|own: &[u8], code: i32|
                own@ == self@ && call_ensures(compare, (own, rhs), code) && same == (code == 0),
    {
        if self.0.len() == rhs.len() {
            compare(self.0.as_slice(), rhs) == 0
        } else {
            false
        }
    }
}

impl From<Vec<u8>> for Bytes {
    /// Takes over `t` as the buffer.
    fn from(t: Vec<u8>) -> (bytes: Bytes) {
        Bytes(t)
    }
}

impl FromSpecImpl<Vec<u8>> for Bytes {
    open spec fn obeys_from_spec() -> bool {
        true
    }

    open spec fn from_spec(t: Vec<u8>) -> Bytes {
        Bytes(t)
    }
}

impl<'a> From<&'a [u8]> for Bytes {
    /// Copies `t` into a buffer of its own.
    fn from(t: &'a [u8]) -> (bytes: Bytes)
        ensures
            bytes@ == t@,
    {
        Bytes::new(t)
    }
}

/// The copy is a vector that did not exist before: what `from` returns is stated over its
/// view, in the `ensures` of `from`, and not as a value.
impl<'a> FromSpecImpl<&'a [u8]> for Bytes {
    open spec fn obeys_from_spec() -> bool {
        false
    }

    open spec fn from_spec(t: &'a [u8]) -> Bytes {
        arbitrary()
    }
}

impl core::ops::Deref for Bytes {
    type Target = [u8];

    /// The bytes held, for reading.
    fn deref(&self) -> (held: &[u8])
        ensures
            held@ == self@,
    {
        self.0.as_slice()
    }
}

impl AsRef<[u8]> for Bytes {
    /// The bytes held, for reading.
    fn as_ref(&self) -> (held: &[u8])
        ensures
            held@ == self@,
    {
        self.0.as_slice()
    }
}

impl PartialEq<[u8]> for Bytes {
    /// Equality with a byte string, decided by `secure_compare` where the lengths agree.
    fn eq(&self, rhs: &[u8]) -> (same: bool) {
        proof {
            if self@.len() == rhs@.len() {
                lemma_code_zero_iff_equal(self@, rhs@);
            }
        }
        self.eq_with(rhs, secure_compare)
    }
}

impl PartialEqSpecImpl<[u8]> for Bytes {
    open spec fn obeys_eq_spec() -> bool {
        true
    }

    open spec fn eq_spec(&self, rhs: &[u8]) -> bool {
        self@ == rhs@
    }
}

impl PartialEq<Vec<u8>> for Bytes {
    /// Equality with the bytes of a vector.
    fn eq(&self, rhs: &Vec<u8>) -> (same: bool) {
        self.eq(rhs.as_slice())
    }
}

impl PartialEqSpecImpl<Vec<u8>> for Bytes {
    open spec fn obeys_eq_spec() -> bool {
        true
    }

    open spec fn eq_spec(&self, rhs: &Vec<u8>) -> bool {
        self@ == rhs@
    }
}

impl<const N: usize> PartialEq<[u8; N]> for Bytes {
    /// Equality with the bytes of an array.
    fn eq(&self, rhs: &[u8; N]) -> (same: bool) {
        self.eq(rhs.as_slice())
    }
}

impl<const N: usize> PartialEqSpecImpl<[u8; N]> for Bytes {
    open spec fn obeys_eq_spec() -> bool {
        true
    }

    open spec fn eq_spec(&self, rhs: &[u8; N]) -> bool {
        self@ == rhs@
    }
}

impl PartialEq<Bytes> for Bytes {
    /// Equality with the bytes of another buffer.
    fn eq(&self, rhs: &Bytes) -> (same: bool) {
        self.eq(rhs.as_slice())
    }
}

impl PartialEqSpecImpl<Bytes> for Bytes {
    open spec fn obeys_eq_spec() -> bool {
        true
    }

    open spec fn eq_spec(&self, rhs: &Bytes) -> bool {
        self@ == rhs@
    }
}

impl Eq for Bytes {}

/// A buffer that holds the bytes of `a` equals `a`, and equals no byte string `b` that
/// differs from `a`, be it in length or in a byte.
pub proof fn lemma_equal_to_its_content_only(bytes: Bytes, a: &[u8], b: &[u8])
    requires
        bytes@ == a@,
    ensures
        PartialEqSpec::eq_spec(&bytes, a),
        b@ != a@ ==> !PartialEqSpec::eq_spec(&bytes, b),
{
}

/// No mark of a buffer's rendering is a byte of its content, as long as the content does not
/// itself hold the code of the redaction mark.
pub proof fn lemma_rendering_hides_content(content: Seq<u8>)
    requires
        forall|j: int| 0 <= j < content.len() ==> content[j] != REDACTION_MARK as u8,
    ensures
        forall|i: int, j: int|
            0 <= i < content.len() && 0 <= j < content.len() ==> redaction(content.len())[i] as u8
                != content[j],
{
}

} // verus!
