use shr3::arch::{avr, generic};
use shr3::shr3;
use shr3::Shr3;
use shr3::Shr3Ops;

const VECTORS: [(u32, u32); 6] = [
    (0, 0),
    (0xFFFF_FFFF, 0x0003E01F),
    (0x5555_5555, 0x000EDFEA),
    (0xAAAA_AAAA, 0x000D3FF5),
    (0x4242_4242, 0x4B4AEFA7),
    (0x3C95_A60C, 0x82D826E6),
];

#[test]
fn test_alg() {
    assert_eq!(shr3(0), 0);
    assert_eq!(shr3(0xFFFF_FFFF), 0x0003E01F);
    assert_eq!(shr3(0x5555_5555), 0x000EDFEA);
    assert_eq!(shr3(0xAAAA_AAAA), 0x000D3FF5);
    assert_eq!(shr3(0x4242_4242), 0x4B4AEFA7);
    assert_eq!(shr3(0x3C95_A60C), 0x82D826E6);
}

#[test]
fn both_formulations_match_vectors() {
    for (input, expected) in VECTORS {
        assert_eq!(generic::shr3(input), expected);
        assert_eq!(avr::shr3(input), expected);
    }
}

#[test]
fn both_formulations_agree_on_a_walk() {
    let mut x: u32 = 0x1234_5678;
    for _ in 0..100_000 {
        assert_eq!(avr::shr3(x), generic::shr3(x));
        x = generic::shr3(x);
    }
    for shift in 0..32 {
        let x: u32 = 1 << shift;
        assert_eq!(avr::shr3(x), generic::shr3(x));
        assert_eq!(avr::shr3(!x), generic::shr3(!x));
    }
}

#[test]
fn register_does_not_repeat_early() {
    let seed: u32 = 42;
    let mut a = Shr3::new_state(seed);
    for _ in 0..1_000_000 {
        let _: u32 = a.get_bits(1);
        assert_ne!(a.state(), seed);
        assert_ne!(a.state(), 0);
    }
}
