use lupine::BloomFilter;

/// The classical optimal bit-array length for `size` items at the given
/// false-positive rate: `ceil(-(size * ln p) / (ln 2)^2)`.
fn optimal_m(false_pos_rate: f64, size: usize) -> usize {
    let ln_2: f64 = std::f64::consts::LN_2;
    ((size as f64 * -1.0 * false_pos_rate.ln()) / (ln_2 * ln_2)).ceil() as usize
}

/// The classical optimal number of hash functions for the given
/// false-positive rate: `ceil(-ln p / ln 2)`.
fn optimal_k(false_pos_rate: f64) -> u64 {
    let ln_2: f64 = std::f64::consts::LN_2;
    (false_pos_rate.ln() * -1.0 / ln_2).ceil() as u64
}

fn filter_for<T: ?Sized>(size: usize, false_pos_rate: f64) -> BloomFilter<T> {
    let m = optimal_m(false_pos_rate, size);
    let k = optimal_k(false_pos_rate);
    assert!(m > 0);
    BloomFilter::new(m, k)
}

#[test]
fn test_hash() {
    let bf: BloomFilter<str> = filter_for(1000, 0.0001);
    let o = bf.hash("test");
    assert_eq!(o, (14825577416135075223, 14825577416135075223));
}

#[test]
fn test_parameters() {
    let bf: BloomFilter<str> = filter_for(1000, 0.001);
    assert_eq!(bf.m(), 14378);
    assert_eq!(bf.k(), 10);
}

#[test]
fn test_insert_then_contains() {
    let mut bf: BloomFilter<str> = filter_for(1000, 0.01);
    assert!(!bf.contains("x"));
    bf.insert("x");
    assert!(bf.contains("x"));
}

#[test]
fn test_empty_filter_contains_nothing() {
    let mut bf: BloomFilter<u64> = filter_for(1000, 0.01);
    for i in 0..1000u64 {
        assert!(!bf.contains(&i));
    }
}

#[test]
fn test_insert_is_idempotent() {
    let mut once: BloomFilter<str> = filter_for(100, 0.05);
    let mut thrice: BloomFilter<str> = filter_for(100, 0.05);
    once.insert("same item");
    thrice.insert("same item");
    thrice.insert("same item");
    thrice.insert("same item");
    assert_eq!(once.m(), thrice.m());
    for i in 0..once.m() {
        assert_eq!(once.bit(i), thrice.bit(i));
    }
}

#[test]
fn test_deterministic_indices() {
    let a: BloomFilter<str> = filter_for(500, 0.02);
    let b: BloomFilter<str> = filter_for(500, 0.02);
    assert_eq!(a.m(), b.m());
    assert_eq!(a.k(), b.k());
    let (a1, a2) = a.hash("some item");
    let (b1, b2) = b.hash("some item");
    assert_eq!((a1, a2), (b1, b2));
    for i in 0..a.k() {
        assert_eq!(a.find_index(i, a1, a2), b.find_index(i, b1, b2));
    }
}

#[test]
fn test_index_bounds() {
    let bf: BloomFilter<u64> = filter_for(50, 0.1);
    let m = bf.m();
    for item in 0..200u64 {
        let (h1, h2) = bf.hash(&item);
        for i in 0..bf.k() {
            assert!(bf.find_index(i, h1, h2) < m);
        }
    }
}

#[test]
fn test_no_false_negatives() {
    let mut bf: BloomFilter<u64> = filter_for(200, 0.01);
    for i in 0..100u64 {
        bf.insert(&i);
    }
    for i in 0..100u64 {
        assert!(bf.contains(&i));
        bf.insert(&(1000 + i));
        assert!(bf.contains(&i));
    }
    for i in 0..100u64 {
        assert!(bf.contains(&i));
        assert!(bf.contains(&(1000 + i)));
    }
}

#[test]
fn test_bit_array_starts_clear_and_fills() {
    let mut bf: BloomFilter<str> = filter_for(100, 0.05);
    for i in 0..bf.m() {
        assert!(!bf.bit(i));
    }
    bf.insert("an item");
    let set_count = (0..bf.m()).filter(|&i| bf.bit(i)).count();
    assert!(set_count >= 1);
    assert!(set_count as u64 <= bf.k());
}

#[test]
fn test_single_bit_filter() {
    let mut bf: BloomFilter<u64> = BloomFilter::new(1, 1);
    assert!(!bf.contains(&42));
    bf.insert(&42);
    assert!(bf.contains(&42));
    // every index reduces to 0, so any other item is now a false positive
    assert!(bf.contains(&7));
}

#[test]
fn test_false_positive_rate_order_of_magnitude() {
    let mut bf: BloomFilter<u64> = filter_for(10, 0.1);
    for i in 0..10u64 {
        bf.insert(&i);
    }
    for i in 0..10u64 {
        assert!(bf.contains(&i));
    }
    let probes: u64 = 100_000;
    let mut false_positives: u64 = 0;
    for i in 0..probes {
        if bf.contains(&(1_000_000 + i)) {
            false_positives += 1;
        }
    }
    let rate = false_positives as f64 / probes as f64;
    assert!(rate < 0.5, "false-positive rate {} is far above the 0.1 target", rate);
    assert!(rate > 0.005, "false-positive rate {} is far below the 0.1 target", rate);
}
