use random::sources::xorshift::XorshiftPlus;
use random::{Source, Xorshift128Plus};

#[test]
fn first_raw_draw_is_pinned() {
    let mut source = Xorshift128Plus::new([42, 69]);
    assert_eq!(source.read_u64(), 352324404);
    let next: Vec<u64> = source.iter::<u64>().take(2);
    assert_eq!(next, vec![1283466974, 2955488539098172]);
}

#[test]
fn same_seed_gives_same_draws() {
    let mut a = Xorshift128Plus::new([42, 42]);
    let mut b = Xorshift128Plus::new([42, 42]);
    let first: Vec<u64> = (0..1000).map(|_| a.read_u64()).collect();
    let second: Vec<u64> = (0..1000).map(|_| b.read_u64()).collect();
    assert_eq!(first, second);
    assert_eq!(&first[..3], &[352324266, 352324271, 2955487607955550]);
}

#[test]
fn different_seeds_give_different_draws() {
    let mut a = Xorshift128Plus::new([42, 42]);
    let mut b = Xorshift128Plus::new([42, 69]);
    assert_ne!(a.read_u64(), b.read_u64());
}

#[test]
fn one_nonzero_word_is_enough() {
    let mut a = Xorshift128Plus::new([0, 1]);
    let mut b = Xorshift128Plus::new([1, 0]);
    for _ in 0..100 {
        assert_ne!(a.read_u64() | a.read_u64(), 0);
        assert_ne!(b.read_u64() | b.read_u64(), 0);
    }
}

#[test]
fn xorshift_plus_steps_as_xorshift128_plus() {
    let mut a = XorshiftPlus::new([42, 69]);
    let mut b = Xorshift128Plus::new([42, 69]);
    for _ in 0..100 {
        assert_eq!(a.read_u64(), b.read_u64());
    }
    assert_eq!(a.read::<i32>(), b.read::<i32>());
}

#[test]
fn largest_seed_words() {
    let mut a = Xorshift128Plus::new([u64::MAX, u64::MAX]);
    let mut b = XorshiftPlus::new([u64::MAX, u64::MAX]);
    let x = a.read_u64();
    assert_eq!(x, b.read_u64());
    assert_eq!(x, 18446743798840033215);
}

#[test]
fn xorshift_plus_first_draws_from_42_42() {
    let mut g = XorshiftPlus::new([42, 42]);
    assert_eq!(g.read_u64(), 352324266);
    assert_eq!(g.read_u64(), 352324271);
}

#[test]
fn default_first_draw() {
    let mut d = random::default::Default::new();
    assert_eq!(d.read_u64(), 352324404);
}

#[test]
fn unused_sequence_leaves_the_source_alone() {
    let mut g = Xorshift128Plus::new([42, 69]);
    {
        let _unused = g.iter::<u64>();
    }
    assert_eq!(g.read_u64(), 352324404);
}
