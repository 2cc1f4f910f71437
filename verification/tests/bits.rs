use gba_core::bits::{bit, bits, sign_extend};

#[test]
fn test_bit() {
    assert_eq!(bit(0b1010, 1), true);
    assert_eq!(bit(0b1010, 2), false);
    assert_eq!(bit(0x8000_0000, 31), true);
}

#[test]
fn test_bits() {
    assert_eq!(bits(0b110101, 2, 4), 5);
    assert_eq!(bits(0xFF, 0, 3), 15);
}

#[test]
fn test_sign_extend() {
    assert_eq!(sign_extend(0b111, 3), -1);
    assert_eq!(sign_extend(0b0101, 4), 5);
    assert_eq!(sign_extend(0x800, 12), -2048);
}

#[test]
fn bit_lowest_and_cleared_positions() {
    assert_eq!(bit(1, 0), true);
    assert_eq!(bit(0xFFFF_FFFE, 0), false);
    assert_eq!(bit(0x7FFF_FFFF, 31), false);
}

#[test]
fn bits_single_bit_field_matches_bit() {
    let value: u32 = 0xA5A5_5A5A;
    for pos in 0..32u32 {
        assert_eq!(bits(value, pos, pos) == 1, bit(value, pos));
    }
}

#[test]
fn bits_widest_field_and_high_start() {
    // 31 bits wide is the widest field the shift allows.
    assert_eq!(bits(0xFFFF_FFFF, 0, 30), 0x7FFF_FFFF);
    assert_eq!(bits(0xFFFF_FFFF, 1, 31), 0x7FFF_FFFF);
    assert_eq!(bits(0x8000_0000, 31, 31), 1);
    // A field reaching past bit 31 reads zeros there.
    assert_eq!(bits(0xF000_0000, 28, 40), 0xF);
}

#[test]
fn sign_extend_edges() {
    assert_eq!(sign_extend(1, 1), -1);
    assert_eq!(sign_extend(0, 1), 0);
    assert_eq!(sign_extend(0xFFFF_FFFF, 32), -1);
    assert_eq!(sign_extend(0x7FFF_FFFF, 32), i32::MAX);
    assert_eq!(sign_extend(0x8000_0000, 32), i32::MIN);
    // Only the low bits count.
    assert_eq!(sign_extend(0xFFFF_F0FF, 8), -1);
    assert_eq!(sign_extend(0x0000_0F7F, 8), 127);
    assert_eq!(sign_extend(0x80, 8), -128);
}

#[test]
fn sign_extend_agrees_modulo_field_size() {
    for n in 1..=31u32 {
        let m: i64 = 1i64 << n;
        for value in [0u32, 1, 0x55, 0xAAAA_AAAA, 0xFFFF_FFFF, 0x1234_5678] {
            let r = sign_extend(value, n) as i64;
            assert!(-(m / 2) <= r && r < m / 2);
            assert_eq!(r.rem_euclid(m), (value as i64).rem_euclid(m));
        }
    }
}

#[test]
fn sign_extend_undoes_wrapping() {
    for n in 1..=32u32 {
        let half: i64 = 1i64 << (n - 1);
        for x in [-half, -half / 2, -1, 0, 1, half / 2, half - 1] {
            if x < -half || x >= half {
                continue;
            }
            let wrapped = x as i32 as u32;
            assert_eq!(sign_extend(wrapped, n) as i64, x);
        }
    }
}
