use seckey::{zero, ZeroSafe};

fn bytes_of<T: ZeroSafe + ?Sized>(value: &T) -> Vec<u8> {
    let mut out = Vec::new();
    value.append_repr(&mut out);
    out
}

#[test]
fn zero_clears_an_array() {
    let mut v = [1, 2, 3];
    zero(&mut v);
    assert_eq!(v, [0, 0, 0]);
}

#[test]
fn zero_clears_a_slice() {
    let mut backing = [1, 2, 3];
    let v = &mut backing[..];
    zero(v);
    assert_eq!(v, [0, 0, 0]);
    assert_eq!(backing, [0, 0, 0]);
}

#[test]
fn zero_clears_only_the_slice_it_is_given() {
    let mut backing = [1u8, 2, 3, 4, 5];
    zero(&mut backing[1..3]);
    assert_eq!(backing, [1, 0, 0, 4, 5]);
}

#[test]
fn zero_clears_every_scalar() {
    let mut a = u8::MAX;
    let mut b = u16::MAX;
    let mut c = u32::MAX;
    let mut d = u64::MAX;
    let mut e = usize::MAX;
    let mut f = i8::MIN;
    let mut g = i16::MIN;
    let mut h = i32::MIN;
    let mut i = i64::MIN;
    let mut j = isize::MIN;
    let mut k = u128::MAX;
    let mut l = i128::MIN;
    zero(&mut a);
    zero(&mut b);
    zero(&mut c);
    zero(&mut d);
    zero(&mut e);
    zero(&mut f);
    zero(&mut g);
    zero(&mut h);
    zero(&mut i);
    zero(&mut j);
    zero(&mut k);
    zero(&mut l);
    assert_eq!((a, b, c, d, e), (0, 0, 0, 0, 0));
    assert_eq!((f, g, h, i, j), (0, 0, 0, 0, 0));
    assert_eq!((k, l), (0, 0));
}

#[test]
fn zero_clears_fresh_and_changed_values_alike() {
    let mut fresh = [0u32; 4];
    zero(&mut fresh);
    assert_eq!(fresh, [0; 4]);

    let mut changed = [0u32; 4];
    changed[2] = 0xdead_beef;
    changed[0] = 1;
    zero(&mut changed);
    assert_eq!(changed, [0; 4]);
    zero(&mut changed);
    assert_eq!(changed, [0; 4]);
}

#[test]
fn zero_reaches_into_nested_arrays() {
    let mut v = [[1i16, -2], [3, -4], [5, -6]];
    zero(&mut v);
    assert_eq!(v, [[0, 0]; 3]);
    assert_eq!(bytes_of(&v), vec![0u8; 12]);
}

#[test]
fn zero_accepts_what_holds_no_byte() {
    let mut none: [u64; 0] = [];
    zero(&mut none);
    assert_eq!(bytes_of(&none), Vec::<u8>::new());
    let mut backing = [7u8; 2];
    zero(&mut backing[0..0]);
    assert_eq!(backing, [7, 7]);
}

#[test]
fn every_byte_reads_zero_afterwards() {
    let mut v = [0x0102_0304u32, u32::MAX, 1];
    assert_eq!(bytes_of(&v), vec![4, 3, 2, 1, 255, 255, 255, 255, 1, 0, 0, 0]);
    zero(&mut v);
    assert_eq!(bytes_of(&v), vec![0u8; 12]);
}

#[test]
fn wipe_is_what_zero_does() {
    let mut v = [9u8; 5];
    v.wipe();
    assert_eq!(v, [0; 5]);
}

#[test]
fn unsigned_numbers_stand_least_significant_byte_first() {
    assert_eq!(bytes_of(&0x01u8), vec![0x01]);
    assert_eq!(bytes_of(&0x0102u16), vec![0x02, 0x01]);
    assert_eq!(bytes_of(&0x0102_0304u32), vec![0x04, 0x03, 0x02, 0x01]);
    assert_eq!(
        bytes_of(&0x0102_0304_0506_0708u64),
        vec![0x08, 0x07, 0x06, 0x05, 0x04, 0x03, 0x02, 0x01]
    );
    assert_eq!(bytes_of(&0x0102_0304u32), 0x0102_0304u32.to_le_bytes().to_vec());
    assert_eq!(bytes_of(&(u128::MAX - 1)), (u128::MAX - 1).to_le_bytes().to_vec());
}

#[test]
fn signed_numbers_stand_in_twos_complement() {
    assert_eq!(bytes_of(&-1i8), vec![0xff]);
    assert_eq!(bytes_of(&-2i16), vec![0xfe, 0xff]);
    assert_eq!(bytes_of(&i32::MIN), vec![0, 0, 0, 0x80]);
    assert_eq!(bytes_of(&-1i64), vec![0xff; 8]);
    assert_eq!(bytes_of(&-1i128), vec![0xff; 16]);
    assert_eq!(bytes_of(&1i64), vec![1, 0, 0, 0, 0, 0, 0, 0]);
    assert_eq!(bytes_of(&-123_456i32), (-123_456i32).to_le_bytes().to_vec());
}

#[test]
fn words_take_as_many_bytes_as_the_machine_gives_them() {
    let width = std::mem::size_of::<usize>();
    assert_eq!(bytes_of(&usize::MAX), vec![0xff; width]);
    assert_eq!(bytes_of(&-1isize), vec![0xff; width]);
    assert_eq!(bytes_of(&258usize), 258usize.to_le_bytes().to_vec());
    assert_eq!(bytes_of(&-258isize), (-258isize).to_le_bytes().to_vec());
}

#[test]
fn arrays_and_slices_stand_item_after_item() {
    assert_eq!(bytes_of(&[1u8, 2, 3]), vec![1, 2, 3]);
    assert_eq!(bytes_of(&[0x0102u16, 0x0304]), vec![2, 1, 4, 3]);
    assert_eq!(bytes_of(&[[1u8, 2], [3, 4]]), vec![1, 2, 3, 4]);
    let slice: &[u16] = &[0x0102, 0x0304, 0x0506];
    assert_eq!(bytes_of(slice), vec![2, 1, 4, 3, 6, 5]);
}

#[test]
fn append_repr_keeps_what_is_there() {
    let mut out = vec![7u8, 7];
    0x0102u16.append_repr(&mut out);
    [9u8, 8].append_repr(&mut out);
    assert_eq!(out, vec![7, 7, 2, 1, 9, 8]);
}
