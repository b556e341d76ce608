//! Three-way comparison of byte strings that reads every pair of bytes, whatever they hold.

use vstd::prelude::*;

verus! {

/// The least index at or after `from` at which `a` and `b` hold different bytes, or `a.len()`
/// when they agree from `from` on.
pub open spec fn first_mismatch(a: Seq<u8>, b: Seq<u8>, from: int) -> int
    decreases a.len() - from,
{
    if from >= a.len() {
        a.len() as int
    } else if a[from] != b[from] {
        from
    } else {
        first_mismatch(a, b, from + 1)
    }
}

/// The difference of the two bytes at index `k`, and 0 past the end.
pub open spec fn gap_at(a: Seq<u8>, b: Seq<u8>, k: int) -> int {
    if 0 <= k < a.len() {
        a[k] - b[k]
    } else {
        0
    }
}

/// The outcome of comparing two byte strings of one length: 0 when they are equal, otherwise
/// -1 or 1 as the byte of `a` at the first mismatch is the smaller or the greater one.
pub open spec fn compare_code(a: Seq<u8>, b: Seq<u8>) -> int {
    let gap = gap_at(a, b, first_mismatch(a, b, 0));
    if gap == 0 {
        0
    } else if gap < 0 {
        -1
    } else {
        1
    }
}

/// What a comparison found, and how much of its input it read to find it.
pub struct Comparison {
    /// 0, -1 or 1, as `compare_code` defines it.
    pub code: i32,
    /// The number of byte pairs that were read.
    pub pairs_read: usize,
}

/// `first_mismatch` stays within `from..=a.len()`, and points at a real mismatch unless it is
/// `a.len()`; every index between `from` and it holds equal bytes.
pub proof fn lemma_first_mismatch(a: Seq<u8>, b: Seq<u8>, from: int)
    requires
        0 <= from <= a.len(),
        a.len() == b.len(),
    ensures
        from <= first_mismatch(a, b, from) <= a.len(),
        first_mismatch(a, b, from) < a.len() ==> a[first_mismatch(a, b, from)] != b[first_mismatch(
            a,
            b,
            from,
        )],
        forall|j: int| from <= j < first_mismatch(a, b, from) ==> a[j] == b[j],
    decreases a.len() - from,
{
    if from < a.len() && a[from] == b[from] {
        lemma_first_mismatch(a, b, from + 1);
    }
}

/// Two byte strings of one length compare as 0 exactly when they are the same string.
pub proof fn lemma_code_zero_iff_equal(a: Seq<u8>, b: Seq<u8>)
    requires
        a.len() == b.len(),
    ensures
        compare_code(a, b) == 0 <==> a == b,
{
    lemma_first_mismatch(a, b, 0);
    if compare_code(a, b) == 0 {
        assert(a =~= b);
    }
}

/// The mask that `fold_pair` computes from a difference of two bytes: all ones for 0, else 0.
proof fn lemma_mask(d: i32)
    requires
        -255 <= d <= 255,
    ensures
        d == 0 ==> ((d - 1) as i32 & !d) >> 8 == -1i32,
        d != 0 ==> ((d - 1) as i32 & !d) >> 8 == 0i32,
{
    assert(-255i32 <= d <= 255i32 ==> (d == 0 ==> ((d - 1) as i32 & !d) >> 8u32 == -1i32))
        by (bit_vector);
    assert(-255i32 <= d <= 255i32 ==> (d != 0 ==> ((d - 1) as i32 & !d) >> 8u32 == 0i32))
        by (bit_vector);
}

/// The two shifts that `sign_of` adds up, for each sign of a difference of two bytes.
proof fn lemma_sign(r: i32)
    requires
        -255 <= r <= 255,
    ensures
        r == 0 ==> ((r - 1) as i32 >> 8u32) + (r >> 8u32) + 1 == 0,
        r > 0 ==> ((r - 1) as i32 >> 8u32) + (r >> 8u32) + 1 == 1,
        r < 0 ==> ((r - 1) as i32 >> 8u32) + (r >> 8u32) + 1 == -1,
{
    assert(-255i32 <= r <= 255i32 ==> (r == 0 ==> ((r - 1) as i32 >> 8u32) == -1i32 && (r >> 8u32)
        == 0i32)) by (bit_vector);
    assert(-255i32 <= r <= 255i32 ==> (r > 0 ==> ((r - 1) as i32 >> 8u32) == 0i32 && (r >> 8u32)
        == 0i32)) by (bit_vector);
    assert(-255i32 <= r <= 255i32 ==> (r < 0 ==> ((r - 1) as i32 >> 8u32) == -1i32 && (r >> 8u32)
        == -1i32)) by (bit_vector);
}

/// Folds one more pair of bytes, at a lower index than all before, into the running difference:
/// a pair that differs replaces it, a pair that agrees keeps it. No branch looks at the bytes.
fn fold_pair(running: i32, x: u8, y: u8) -> (out: i32)
    requires
        -255 <= running <= 255,
    ensures
        out == if x == y {
            running as int
        } else {
            x - y
        },
{
    let d: i32 = x as i32 - y as i32;
    let keep: i32 = ((d - 1) & !d) >> 8;
    proof {
        lemma_mask(d);
        assert(running & -1i32 == running) by (bit_vector);
        assert(running & 0i32 == 0i32) by (bit_vector);
        assert(running | 0i32 == running) by (bit_vector);
        assert(0i32 | d == d) by (bit_vector);
    }
    (running & keep) | d
}

/// Reduces a difference of two bytes to its sign without a branch.
fn sign_of(r: i32) -> (s: i32)
    requires
        -255 <= r <= 255,
    ensures
        s == if r == 0 {
            0int
        } else if r < 0 {
            -1int
        } else {
            1int
        },
{
    proof {
        lemma_sign(r);
    }
    ((r - 1) >> 8) + (r >> 8) + 1
}

/// Compares `a` with `b` from the last byte pair to the first and reports, beside the
/// outcome, how many pairs it read: always all of them.
pub fn compare_full(a: &[u8], b: &[u8]) -> (found: Comparison)
    requires
        a@.len() == b@.len(),
    ensures
        found.code == compare_code(a@, b@),
        found.pairs_read == a@.len(),
{
    let mut running: i32 = 0;
    let mut pairs_read: usize = 0;
    let mut i: usize = a.len();
    while i > 0
        invariant
            i <= a@.len(),
            a@.len() == b@.len(),
            -255 <= running <= 255,
            running == gap_at(a@, b@, first_mismatch(a@, b@, i as int)),
            pairs_read == a@.len() - i,
        decreases i,
    {
        i -= 1;
        proof {
            lemma_first_mismatch(a@, b@, i + 1);
        }
        running = fold_pair(running, a[i], b[i]);
        pairs_read += 1;
    }
    Comparison { code: sign_of(running), pairs_read }
}

/// Compares `a` with `b`, reading every byte pair as `compare_full` does.
pub fn secure_compare(a: &[u8], b: &[u8]) -> (code: i32)
    requires
        a@.len() == b@.len(),
    ensures
        code == compare_code(a@, b@),
{
    compare_full(a, b).code
}

} // verus!
