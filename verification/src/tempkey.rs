//! A value of fixed shape that is held for comparison and wiped when it is given up.

use crate::bytes::Bytes;
use crate::zerosafe::{zeros, ZeroSafe};
use vstd::prelude::*;
use vstd::std_specs::cmp::PartialEqSpecImpl;
use vstd::std_specs::convert::FromSpecImpl;

verus! {

/// Temporary key: one value of a plain-data type, held inline, compared with candidates
/// over its whole representation, and overwritten with zero bytes by `destroy`. The key is
/// itself zero-safe, so that it can also be wiped where it lies.
pub struct TempKey<T: ZeroSafe> {
    value: T,
}

impl<T: ZeroSafe> View for TempKey<T> {
    type V = Seq<u8>;

    /// The representation of the value held.
    closed spec fn view(&self) -> Seq<u8> {
        self.value.repr()
    }
}

impl<T: ZeroSafe> TempKey<T> {
    /// A copy of the representation, to be compared and then wiped.
    fn image(&self) -> (shown: Bytes)
        ensures
            shown@ == self@,
    {
        let mut image: Vec<u8> = Vec::new();
        self.value.append_repr(&mut image);
        Bytes::from(image)
    }

    /// Tells whether the key's representation is exactly `candidate`. Where the lengths
    /// differ the answer is no, and no byte is compared.
    fn matches(&self, candidate: &[u8]) -> (same: bool)
        ensures
            same == (self@ == candidate@),
    {
        let mut shown = self.image();
        let same = shown.eq(candidate);
        crate::zero(shown.0.as_mut_slice());
        same
    }

    /// Gives the key up: overwrites the value's whole representation with zero bytes and
    /// hands the storage back, so that it can be released.
    pub fn destroy(self) -> (storage: T)
        ensures
            storage.repr() == zeros(self@.len()),
    {
        let mut storage = self.value;
        storage.wipe();
        storage
    }
}

impl<T: ZeroSafe> ZeroSafe for TempKey<T> {
    /// A key is represented by the value it holds, and by nothing else.
    open spec fn repr(&self) -> Seq<u8> {
        self@
    }

    fn wipe(&mut self) {
        self.value.wipe();
    }

    fn append_repr(&self, out: &mut Vec<u8>) {
        self.value.append_repr(out);
    }
}

impl<T: ZeroSafe> From<T> for TempKey<T> {
    /// Takes `value` in.
    fn from(value: T) -> (key: TempKey<T>)
        ensures
            key@ == value.repr(),
    {
        TempKey { value }
    }
}

impl<T: ZeroSafe> FromSpecImpl<T> for TempKey<T> {
    open spec fn obeys_from_spec() -> bool {
        true
    }

    closed spec fn from_spec(value: T) -> TempKey<T> {
        TempKey { value }
    }
}

impl<T: ZeroSafe> PartialEq<[u8]> for TempKey<T> {
    /// Equality with a raw view of bytes.
    fn eq(&self, rhs: &[u8]) -> (same: bool) {
        self.matches(rhs)
    }
}

impl<T: ZeroSafe> PartialEqSpecImpl<[u8]> for TempKey<T> {
    open spec fn obeys_eq_spec() -> bool {
        true
    }

    open spec fn eq_spec(&self, rhs: &[u8]) -> bool {
        self@ == rhs@
    }
}

impl<T: ZeroSafe> PartialEq<T> for TempKey<T> {
    /// Equality with a value of the same type.
    fn eq(&self, rhs: &T) -> (same: bool) {
        let mut image: Vec<u8> = Vec::new();
        rhs.append_repr(&mut image);
        let same = self.matches(image.as_slice());
        crate::zero(image.as_mut_slice());
        same
    }
}

impl<T: ZeroSafe> PartialEqSpecImpl<T> for TempKey<T> {
    open spec fn obeys_eq_spec() -> bool {
        true
    }

    open spec fn eq_spec(&self, rhs: &T) -> bool {
        self@ == rhs.repr()
    }
}

impl<T: ZeroSafe> PartialEq<TempKey<T>> for TempKey<T> {
    /// Equality with another key.
    fn eq(&self, rhs: &TempKey<T>) -> (same: bool) {
        self.eq(&rhs.value)
    }
}

impl<T: ZeroSafe> PartialEqSpecImpl<TempKey<T>> for TempKey<T> {
    open spec fn obeys_eq_spec() -> bool {
        true
    }

    open spec fn eq_spec(&self, rhs: &TempKey<T>) -> bool {
        self@ == rhs@
    }
}

} // verus!
