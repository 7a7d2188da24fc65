use haskell_hop::text::{celebrate, glyph_pool, scramble, to_decimal};

#[test]
fn counts_are_written_in_decimal() {
    assert_eq!(to_decimal(0), b"0".to_vec());
    assert_eq!(to_decimal(7), b"7".to_vec());
    assert_eq!(to_decimal(10), b"10".to_vec());
    assert_eq!(to_decimal(69), b"69".to_vec());
    assert_eq!(to_decimal(1_000), b"1000".to_vec());
    assert_eq!(to_decimal(u64::MAX), b"18446744073709551615".to_vec());
}

#[test]
fn decimal_reads_back() {
    for n in [0u64, 1, 9, 10, 11, 99, 100, 101, 65_535, 4_294_967_296] {
        let text = String::from_utf8(to_decimal(n)).unwrap();
        assert_eq!(text.parse::<u64>().unwrap(), n);
        assert_eq!(text, format!("{}", n));
    }
}

#[test]
fn the_celebration_reads_as_written() {
    assert_eq!(celebrate(), b"haha funny number".to_vec());
}

#[test]
fn the_pool_is_the_printable_glyphs() {
    let pool = glyph_pool();
    assert_eq!(pool.len(), 94);
    assert_eq!(pool[0], b'!');
    assert_eq!(pool[93], b'~');
    for k in 0..94 {
        assert_eq!(pool[k], 33 + k as u8);
    }
}

#[test]
fn a_scramble_is_five_printable_glyphs() {
    let mut rng = rand::thread_rng();
    for _ in 0..200 {
        let text = scramble(&mut rng);
        assert_eq!(text.len(), 5);
        for glyph in text {
            assert!((33..=126).contains(&glyph));
        }
    }
}

#[test]
fn scrambles_differ() {
    let mut rng = rand::thread_rng();
    let first = scramble(&mut rng);
    let mut differs = false;
    for _ in 0..50 {
        if scramble(&mut rng) != first {
            differs = true;
        }
    }
    assert!(differs);
}
