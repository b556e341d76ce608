//! The values that may be overwritten with zero bytes, and what their bytes are.

use vstd::prelude::*;

verus! {

/// `n` zero bytes.
pub open spec fn zeros(n: nat) -> Seq<u8> {
    Seq::new(n, |i: int| 0u8)
}

/// The `width` low-order bytes of `value`, the least significant first.
pub open spec fn le_bytes(value: nat, width: nat) -> Seq<u8>
    decreases width,
{
    if width == 0 {
        Seq::empty()
    } else {
        seq![(value % 256) as u8] + le_bytes(value / 256, (width - 1) as nat)
    }
}

/// The number of values that `width` bytes can tell apart.
pub open spec fn capacity(width: nat) -> nat
    decreases width,
{
    if width == 0 {
        1
    } else {
        256 * capacity((width - 1) as nat)
    }
}

/// The representations of the items of a sequence, one after the other.
pub open spec fn concat_repr<T: ZeroSafe>(items: Seq<T>) -> Seq<u8>
    decreases items.len(),
{
    if items.len() == 0 {
        Seq::empty()
    } else {
        concat_repr(items.drop_last()) + items.last().repr()
    }
}

/// The number of bytes of a machine word.
pub open spec fn word_bytes() -> nat {
    (usize::BITS / 8) as nat
}

/// A value whose whole representation may be overwritten with zero bytes, because it holds
/// no handle to anything else and every pattern of bits is a value of its type.
pub trait ZeroSafe {
    /// The bytes that represent the value. Those of a number stand least significant first,
    /// a negative number in two's complement; those of an array or slice are those of its
    /// items, in order.
    spec fn repr(&self) -> Seq<u8>;

    /// Overwrites every byte of the representation with zero.
    fn wipe(&mut self)
        ensures
            final(self).repr() == zeros(old(self).repr().len()),
    ;

    /// Appends the representation to `out`.
    fn append_repr(&self, out: &mut Vec<u8>)
        ensures
            final(out)@ == old(out)@ + self.repr(),
    ;
}

/// `le_bytes` gives as many bytes as it is asked for.
pub proof fn lemma_le_bytes_len(value: nat, width: nat)
    ensures
        le_bytes(value, width).len() == width,
    decreases width,
{
    if width > 0 {
        lemma_le_bytes_len(value / 256, (width - 1) as nat);
    }
}

/// The bytes of the number 0 are zero bytes.
pub proof fn lemma_le_bytes_of_zero(width: nat)
    ensures
        le_bytes(0, width) == zeros(width),
    decreases width,
{
    if width > 0 {
        lemma_le_bytes_of_zero((width - 1) as nat);
        assert(le_bytes(0, width) =~= zeros(width));
    } else {
        assert(le_bytes(0, width) =~= zeros(width));
    }
}

/// Numbers that fit in `width` bytes and have the same bytes are the same number: in
/// particular, one whose bytes are all zero is 0.
pub proof fn lemma_le_bytes_injective(a: nat, b: nat, width: nat)
    requires
        a < capacity(width),
        b < capacity(width),
        le_bytes(a, width) == le_bytes(b, width),
    ensures
        a == b,
    decreases width,
{
    if width > 0 {
        let rest = (width - 1) as nat;
        let head_a = seq![(a % 256) as u8];
        let head_b = seq![(b % 256) as u8];
        assert(le_bytes(a, width)[0] == head_a[0]);
        assert(le_bytes(b, width)[0] == head_b[0]);
        assert(le_bytes(a / 256, rest) =~= le_bytes(a, width).subrange(1, width as int)) by {
            lemma_le_bytes_len(a / 256, rest);
        }
        assert(le_bytes(b / 256, rest) =~= le_bytes(b, width).subrange(1, width as int)) by {
            lemma_le_bytes_len(b / 256, rest);
        }
        lemma_le_bytes_injective(a / 256, b / 256, rest);
    }
}

/// A string of bytes is represented by itself.
pub proof fn lemma_bytes_represent_themselves(items: Seq<u8>)
    ensures
        concat_repr(items) == items,
    decreases items.len(),
{
    if items.len() > 0 {
        lemma_bytes_represent_themselves(items.drop_last());
        reveal_with_fuel(le_bytes, 2);
        assert(items.last().repr() =~= seq![items.last()]);
        assert(items.drop_last() + seq![items.last()] =~= items);
    } else {
        assert(concat_repr(items) =~= items);
    }
}

/// The representation of a sequence with one more item at its end.
pub proof fn lemma_concat_repr_push<T: ZeroSafe>(items: Seq<T>, item: T)
    ensures
        concat_repr(items.push(item)) == concat_repr(items) + item.repr(),
{
    assert(items.push(item).drop_last() =~= items);
}

/// A sequence whose items have each been overwritten with zero bytes is itself all zero
/// bytes, as many as there were before.
pub proof fn lemma_concat_repr_zeroed<T: ZeroSafe>(after: Seq<T>, before: Seq<T>)
    requires
        after.len() == before.len(),
        forall|j: int|
            0 <= j < after.len() ==> (#[trigger] after[j]).repr() == zeros(before[j].repr().len()),
    ensures
        concat_repr(after) == zeros(concat_repr(before).len()),
    decreases after.len(),
{
    if after.len() > 0 {
        lemma_concat_repr_zeroed(after.drop_last(), before.drop_last());
        assert(after.last().repr() == zeros(before.last().repr().len()));
    }
    assert(concat_repr(after) =~= zeros(concat_repr(before).len()));
}

/// Appends the `width` low-order bytes of `value` to `out`.
fn push_le(value: u128, width: usize, out: &mut Vec<u8>)
    ensures
        final(out)@ == old(out)@ + le_bytes(value as nat, width as nat),
{
    let mut rest: u128 = value;
    let mut i: usize = 0;
    while i < width
        invariant
            i <= width,
            out@ + le_bytes(rest as nat, (width - i) as nat) == old(out)@ + le_bytes(
                value as nat,
                width as nat,
            ),
        decreases width - i,
    {
        let ghost before = out@;
        out.push((rest % 256) as u8);
        proof {
            let tail = le_bytes((rest / 256) as nat, (width - i - 1) as nat);
            assert(le_bytes(rest as nat, (width - i) as nat) == seq![(rest % 256) as u8] + tail);
            assert(out@ + tail =~= before + (seq![(rest % 256) as u8] + tail));
        }
        rest = rest / 256;
        i += 1;
    }
    assert(out@ + le_bytes(rest as nat, 0) =~= out@);
}

impl ZeroSafe for u8 {
    open spec fn repr(&self) -> Seq<u8> {
        le_bytes(*self as nat, 1)
    }

    fn wipe(&mut self) {
        proof {
            lemma_le_bytes_len(*self as nat, 1);
            lemma_le_bytes_of_zero(1);
        }
        *self = 0;
    }

    fn append_repr(&self, out: &mut Vec<u8>) {
        push_le(*self as u128, 1, out);
    }
}

impl ZeroSafe for u16 {
    open spec fn repr(&self) -> Seq<u8> {
        le_bytes(*self as nat, 2)
    }

    fn wipe(&mut self) {
        proof {
            lemma_le_bytes_len(*self as nat, 2);
            lemma_le_bytes_of_zero(2);
        }
        *self = 0;
    }

    fn append_repr(&self, out: &mut Vec<u8>) {
        push_le(*self as u128, 2, out);
    }
}

impl ZeroSafe for u32 {
    open spec fn repr(&self) -> Seq<u8> {
        le_bytes(*self as nat, 4)
    }

    fn wipe(&mut self) {
        proof {
            lemma_le_bytes_len(*self as nat, 4);
            lemma_le_bytes_of_zero(4);
        }
        *self = 0;
    }

    fn append_repr(&self, out: &mut Vec<u8>) {
        push_le(*self as u128, 4, out);
    }
}

impl ZeroSafe for u64 {
    open spec fn repr(&self) -> Seq<u8> {
        le_bytes(*self as nat, 8)
    }

    fn wipe(&mut self) {
        proof {
            lemma_le_bytes_len(*self as nat, 8);
            lemma_le_bytes_of_zero(8);
        }
        *self = 0;
    }

    fn append_repr(&self, out: &mut Vec<u8>) {
        push_le(*self as u128, 8, out);
    }
}

impl ZeroSafe for u128 {
    open spec fn repr(&self) -> Seq<u8> {
        le_bytes(*self as nat, 16)
    }

    fn wipe(&mut self) {
        proof {
            lemma_le_bytes_len(*self as nat, 16);
            lemma_le_bytes_of_zero(16);
        }
        *self = 0;
    }

    fn append_repr(&self, out: &mut Vec<u8>) {
        push_le(*self, 16, out);
    }
}

impl ZeroSafe for usize {
    open spec fn repr(&self) -> Seq<u8> {
        le_bytes(*self as nat, word_bytes())
    }

    fn wipe(&mut self) {
        proof {
            lemma_le_bytes_len(*self as nat, word_bytes());
            lemma_le_bytes_of_zero(word_bytes());
        }
        *self = 0;
    }

    fn append_repr(&self, out: &mut Vec<u8>) {
        push_le(*self as u128, (usize::BITS / 8) as usize, out);
    }
}

impl ZeroSafe for i8 {
    open spec fn repr(&self) -> Seq<u8> {
        le_bytes((*self as u8) as nat, 1)
    }

    fn wipe(&mut self) {
        proof {
            lemma_le_bytes_len((*self as u8) as nat, 1);
            lemma_le_bytes_of_zero(1);
        }
        *self = 0;
    }

    fn append_repr(&self, out: &mut Vec<u8>) {
        push_le((*self as u8) as u128, 1, out);
    }
}

impl ZeroSafe for i16 {
    open spec fn repr(&self) -> Seq<u8> {
        le_bytes((*self as u16) as nat, 2)
    }

    fn wipe(&mut self) {
        proof {
            lemma_le_bytes_len((*self as u16) as nat, 2);
            lemma_le_bytes_of_zero(2);
        }
        *self = 0;
    }

    fn append_repr(&self, out: &mut Vec<u8>) {
        push_le((*self as u16) as u128, 2, out);
    }
}

impl ZeroSafe for i32 {
    open spec fn repr(&self) -> Seq<u8> {
        le_bytes((*self as u32) as nat, 4)
    }

    fn wipe(&mut self) {
        proof {
            lemma_le_bytes_len((*self as u32) as nat, 4);
            lemma_le_bytes_of_zero(4);
        }
        *self = 0;
    }

    fn append_repr(&self, out: &mut Vec<u8>) {
        push_le((*self as u32) as u128, 4, out);
    }
}

impl ZeroSafe for i64 {
    open spec fn repr(&self) -> Seq<u8> {
        le_bytes((*self as u64) as nat, 8)
    }

    fn wipe(&mut self) {
        proof {
            lemma_le_bytes_len((*self as u64) as nat, 8);
            lemma_le_bytes_of_zero(8);
        }
        *self = 0;
    }

    fn append_repr(&self, out: &mut Vec<u8>) {
        push_le((*self as u64) as u128, 8, out);
    }
}

impl ZeroSafe for i128 {
    open spec fn repr(&self) -> Seq<u8> {
        le_bytes((*self as u128) as nat, 16)
    }

    fn wipe(&mut self) {
        proof {
            lemma_le_bytes_len((*self as u128) as nat, 16);
            lemma_le_bytes_of_zero(16);
        }
        *self = 0;
    }

    fn append_repr(&self, out: &mut Vec<u8>) {
        push_le(*self as u128, 16, out);
    }
}

impl ZeroSafe for isize {
    open spec fn repr(&self) -> Seq<u8> {
        le_bytes((*self as usize) as nat, word_bytes())
    }

    fn wipe(&mut self) {
        proof {
            lemma_le_bytes_len((*self as usize) as nat, word_bytes());
            lemma_le_bytes_of_zero(word_bytes());
        }
        *self = 0;
    }

    fn append_repr(&self, out: &mut Vec<u8>) {
        push_le((*self as usize) as u128, (usize::BITS / 8) as usize, out);
    }
}

impl<T: ZeroSafe> ZeroSafe for [T] {
    open spec fn repr(&self) -> Seq<u8> {
        concat_repr(self@)
    }

    fn wipe(&mut self) {
        let n: usize = self.len();
        let mut i: usize = 0;
        while i < n
            invariant
                i <= n,
                n == self@.len(),
                self@.len() == old(self)@.len(),
                forall|j: int|
                    0 <= j < i ==> (#[trigger] self@[j]).repr() == zeros(
                        old(self)@[j].repr().len(),
                    ),
                forall|j: int| i <= j < n ==> self@[j] == old(self)@[j],
            decreases n - i,
        {
            self[i].wipe();
            i += 1;
        }
        proof {
            lemma_concat_repr_zeroed(self@, old(self)@);
        }
    }

    fn append_repr(&self, out: &mut Vec<u8>) {
        let n: usize = self.len();
        let mut i: usize = 0;
        while i < n
            invariant
                i <= n,
                n == self@.len(),
                out@ == old(out)@ + concat_repr(self@.take(i as int)),
            decreases n - i,
        {
            self[i].append_repr(out);
            proof {
                lemma_concat_repr_push(self@.take(i as int), self@[i as int]);
                assert(self@.take(i + 1) =~= self@.take(i as int).push(self@[i as int]));
                assert(out@ =~= old(out)@ + concat_repr(self@.take(i + 1)));
            }
            i += 1;
        }
        assert(self@.take(n as int) =~= self@);
    }
}

impl<T: ZeroSafe, const N: usize> ZeroSafe for [T; N] {
    open spec fn repr(&self) -> Seq<u8> {
        concat_repr(self@)
    }

    fn wipe(&mut self) {
        let mut i: usize = 0;
        while i < N
            invariant
                i <= N,
                forall|j: int|
                    0 <= j < i ==> (#[trigger] self@[j]).repr() == zeros(
                        old(self)@[j].repr().len(),
                    ),
                forall|j: int| i <= j < N ==> self@[j] == old(self)@[j],
            decreases N - i,
        {
            self[i].wipe();
            i += 1;
        }
        proof {
            lemma_concat_repr_zeroed(self@, old(self)@);
        }
    }

    fn append_repr(&self, out: &mut Vec<u8>) {
        let mut i: usize = 0;
        while i < N
            invariant
                i <= N,
                out@ == old(out)@ + concat_repr(self@.take(i as int)),
            decreases N - i,
        {
            self[i].append_repr(out);
            proof {
                lemma_concat_repr_push(self@.take(i as int), self@[i as int]);
                assert(self@.take(i + 1) =~= self@.take(i as int).push(self@[i as int]));
                assert(out@ =~= old(out)@ + concat_repr(self@.take(i + 1)));
            }
            i += 1;
        }
        assert(self@.take(N as int) =~= self@);
    }
}

} // verus!
