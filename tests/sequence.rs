use random::{Sequence, Source, Xorshift128Plus};

#[test]
fn sequence_matches_single_reads() {
    let mut a = Xorshift128Plus::new([42, 69]);
    let mut b = a;
    let taken: Vec<u64> = a.iter::<u64>().take(2);
    let first: u64 = b.read();
    let second: u64 = b.read();
    assert_eq!(taken, vec![first, second]);
    assert_eq!(a.read_u64(), b.read_u64());
}

#[test]
fn fresh_sequence_continues_where_the_last_stopped() {
    let mut a = Xorshift128Plus::new([3, 5]);
    let mut b = a;
    let mut whole: Vec<i16> = b.iter::<i16>().take(5);
    let mut parts: Vec<i16> = a.iter::<i16>().take(2);
    parts.extend(a.iter::<i16>().take(3));
    assert_eq!(parts, whole);
    whole.clear();
    assert!(whole.is_empty());
}

#[test]
fn sequence_next_never_ends() {
    let mut a = Xorshift128Plus::new([42, 69]);
    let mut s: Sequence<Xorshift128Plus, u64> = Sequence::from(&mut a);
    assert_eq!(s.next(), Some(352324404));
    assert_eq!(s.next(), Some(1283466974));
    for _ in 0..1000 {
        assert!(s.next().is_some());
    }
}

#[test]
fn take_zero_draws_nothing() {
    let mut a = Xorshift128Plus::new([42, 69]);
    let none: Vec<u8> = a.iter::<u8>().take(0);
    assert!(none.is_empty());
    assert_eq!(a.read_u64(), 352324404);
}

#[test]
fn default_source_uses_the_default_seed() {
    let mut d = random::default::Default::new();
    let mut x = Xorshift128Plus::new([42, 69]);
    for _ in 0..10 {
        assert_eq!(d.read_u64(), x.read_u64());
    }
}

#[test]
fn seed_replaces_the_state() {
    let mut d = random::default::Default::new();
    d.read_u64();
    let mut d = d.seed([42, 42]);
    assert_eq!(d.read_u64(), 352324266);
    let taken: Vec<u64> = d.iter::<u64>().take(2);
    assert_eq!(taken, vec![352324271, 2955487607955550]);
}

#[test]
fn default_from_one_word() {
    let mut d = random::default(42);
    let mut x = Xorshift128Plus::new([41, 43]);
    assert_eq!(d.read_u64(), 343935597);
    assert_eq!(x.read_u64(), 343935597);
    assert_eq!(d.read::<u64>(), 360712942);
}

#[test]
fn default_from_word_edges() {
    let mut a = random::default(0);
    let mut b = Xorshift128Plus::new([u64::MAX, 1]);
    assert_eq!(a.read_u64(), b.read_u64());
    let mut a = random::default(u64::MAX);
    let mut b = Xorshift128Plus::new([u64::MAX - 1, 0]);
    assert_eq!(a.read_u64(), b.read_u64());
}
