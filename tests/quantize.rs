use viuwa_ansi::{
    dist, gray_to_256, luma, palette_color, rgb_to_256, rgb_xyz_256, ColorAttributes,
    MAX_DISTANCE,
};

const GRAY_TABLE: [u8; 256] = [
    16, 16, 16, 16, 16, 232, 232, 232, 232, 232, 232, 232, 232, 232, 233, 233,
    233, 233, 233, 233, 233, 233, 233, 233, 234, 234, 234, 234, 234, 234, 234, 234,
    234, 234, 235, 235, 235, 235, 235, 235, 235, 235, 235, 235, 236, 236, 236, 236,
    236, 236, 236, 236, 236, 236, 237, 237, 237, 237, 237, 237, 237, 237, 237, 237,
    238, 238, 238, 238, 238, 238, 238, 238, 238, 238, 239, 239, 239, 239, 239, 239,
    239, 239, 239, 239, 240, 240, 240, 240, 240, 240, 240, 240, 59, 59, 59, 59,
    59, 241, 241, 241, 241, 241, 241, 241, 242, 242, 242, 242, 242, 242, 242, 242,
    242, 242, 243, 243, 243, 243, 243, 243, 243, 243, 243, 244, 244, 244, 244, 244,
    244, 244, 244, 244, 102, 102, 102, 102, 102, 245, 245, 245, 245, 245, 245, 246,
    246, 246, 246, 246, 246, 246, 246, 246, 246, 247, 247, 247, 247, 247, 247, 247,
    247, 247, 247, 248, 248, 248, 248, 248, 248, 248, 248, 248, 145, 145, 145, 145,
    145, 249, 249, 249, 249, 249, 249, 250, 250, 250, 250, 250, 250, 250, 250, 250,
    250, 251, 251, 251, 251, 251, 251, 251, 251, 251, 251, 252, 252, 252, 252, 252,
    252, 252, 252, 252, 188, 188, 188, 188, 188, 253, 253, 253, 253, 253, 253, 254,
    254, 254, 254, 254, 254, 254, 254, 254, 254, 255, 255, 255, 255, 255, 255, 255,
    255, 255, 255, 255, 255, 255, 255, 231, 231, 231, 231, 231, 231, 231, 231, 231,
];

const LEVELS: [u8; 6] = [0x00, 0x5F, 0x87, 0xAF, 0xD7, 0xFF];

#[test]
fn gray_to_256_matches_table_everywhere() {
    for v in 0..=255u8 {
        let i = gray_to_256(v);
        assert_eq!(i, GRAY_TABLE[v as usize], "gray level {}", v);
        assert!(i >= 16);
        assert_eq!(gray_to_256(v), i);
    }
}

#[test]
fn gray_to_256_cube_diagonal_exceptions() {
    assert_eq!(gray_to_256(92), 59);
    assert_eq!(gray_to_256(132), 102);
    assert_eq!(gray_to_256(172), 145);
    assert_eq!(gray_to_256(212), 188);
    assert_eq!(gray_to_256(255), 231);
    assert_eq!(gray_to_256(0), 16);
}

#[test]
fn luma_examples() {
    assert_eq!(luma(&[0, 0, 0]), 0);
    assert_eq!(luma(&[255, 255, 255]), 255);
    assert_eq!(luma(&[255, 0, 0]), 54);
    assert_eq!(luma(&[0, 255, 0]), 182);
    assert_eq!(luma(&[0, 0, 255]), 18);
    assert_eq!(luma(&[10, 20, 30]), 18);
}

#[test]
fn distance_black_white() {
    assert_eq!(dist(&[0, 0, 0], &[255, 255, 255]), 584970);
    assert_eq!(dist(&[255, 255, 255], &[0, 0, 0]), MAX_DISTANCE);
}

#[test]
fn distance_exact_values() {
    // mean red 125: (637 * 100) >> 8 + 4 * 400 + (642 * 900) >> 8
    assert_eq!(dist(&[120, 50, 60], &[130, 70, 90]), 248 + 1600 + 2257);
    assert_eq!(dist(&[255, 0, 0], &[0, 0, 0]), 162308);
    assert_eq!(dist(&[0, 0, 255], &[0, 0, 0]), 194820);
}

#[test]
fn distance_symmetric_and_zero_on_equal() {
    let samples: [[u8; 3]; 6] = [
        [0, 0, 0],
        [255, 255, 255],
        [255, 0, 0],
        [12, 200, 77],
        [130, 131, 129],
        [1, 254, 3],
    ];
    for a in samples.iter() {
        assert_eq!(dist(a, a), 0);
        for b in samples.iter() {
            assert_eq!(dist(a, b), dist(b, a));
            assert!(dist(a, b) <= MAX_DISTANCE);
        }
    }
}

#[test]
fn distance_never_exceeds_maximum_on_extremes() {
    for r in [0u8, 1, 127, 128, 254, 255] {
        for s in [0u8, 1, 127, 128, 254, 255] {
            let d = dist(&[r, 0, 255 - s], &[s, 255, r]);
            assert!(d <= MAX_DISTANCE);
        }
    }
}

#[test]
fn palette_entries() {
    assert_eq!(palette_color(0), [0, 0, 0]);
    assert_eq!(palette_color(15), [0, 0, 0]);
    assert_eq!(palette_color(16), [0, 0, 0]);
    assert_eq!(palette_color(17), [0x00, 0x00, 0x5F]);
    assert_eq!(palette_color(59), [0x5F, 0x5F, 0x5F]);
    assert_eq!(palette_color(196), [0xFF, 0x00, 0x00]);
    assert_eq!(palette_color(231), [0xFF, 0xFF, 0xFF]);
    assert_eq!(palette_color(232), [0x08, 0x08, 0x08]);
    assert_eq!(palette_color(244), [0x80, 0x80, 0x80]);
    assert_eq!(palette_color(255), [0xEE, 0xEE, 0xEE]);
}

#[test]
fn rgb_xyz_256_rounds_each_channel() {
    assert_eq!(rgb_xyz_256(&[0, 0, 0]), 16);
    assert_eq!(rgb_xyz_256(&[255, 255, 255]), 231);
    assert_eq!(rgb_xyz_256(&[255, 0, 0]), 196);
    // 25 * 5 / 255 = 0.49, 26 * 5 / 255 = 0.51
    assert_eq!(rgb_xyz_256(&[25, 25, 25]), 16);
    assert_eq!(rgb_xyz_256(&[26, 0, 0]), 16 + 36);
    assert_eq!(rgb_xyz_256(&[0, 26, 0]), 16 + 6);
    assert_eq!(rgb_xyz_256(&[0, 0, 26]), 16 + 1);
}

#[test]
fn rgb_xyz_256_round_trip_on_fixed_levels() {
    let fixed = [0usize, 3, 4, 5];
    for &r in fixed.iter() {
        for &g in fixed.iter() {
            for &b in fixed.iter() {
                let index = 16 + 36 * r + 6 * g + b;
                let p = palette_color(index as u8);
                assert_eq!(p, [LEVELS[r], LEVELS[g], LEVELS[b]]);
                assert_eq!(rgb_xyz_256(&p) as usize, index);
            }
        }
    }
}

#[test]
fn rgb_xyz_256_moves_low_levels_up() {
    // 0x5F rounds to level 2 and 0x87 to level 3.
    assert_eq!(rgb_xyz_256(&palette_color(16 + 36)), 16 + 72);
    assert_eq!(rgb_xyz_256(&palette_color(16 + 72)), 16 + 108);
}

#[test]
fn rgb_to_256_pure_colours() {
    let ca = ColorAttributes::new(0);
    assert_eq!(rgb_to_256(&[255, 0, 0], &ca), 196);
    assert_eq!(rgb_to_256(&[0, 255, 0], &ca), 46);
    assert_eq!(rgb_to_256(&[0, 0, 255], &ca), 21);
    assert_eq!(rgb_to_256(&[0, 0, 0], &ca), 16);
    assert_eq!(rgb_to_256(&[255, 255, 255], &ca), 231);
}

#[test]
fn rgb_to_256_prefers_ramp_for_grays() {
    let ca = ColorAttributes::new(0);
    assert_eq!(rgb_to_256(&[128, 128, 128], &ca), 244);
    assert_eq!(rgb_to_256(&[8, 8, 8], &ca), 232);
}

#[test]
fn rgb_to_256_pure_gray_follows_gray_table() {
    let ca = ColorAttributes::new(0);
    for v in 0..=255u8 {
        let c = [v, v, v];
        let gray = gray_to_256(v);
        let cube = rgb_xyz_256(&c);
        if dist(&c, &palette_color(gray)) <= dist(&c, &palette_color(cube)) {
            assert_eq!(rgb_to_256(&c, &ca), gray, "gray level {}", v);
        }
    }
}

#[test]
fn rgb_to_256_range_and_bias_monotone() {
    let biases = [0u32, 1, 100, 1000, 10000, 100000, MAX_DISTANCE, u32::MAX];
    let mut seen_flip = false;
    for r in (0..=255u32).step_by(17) {
        for g in (0..=255u32).step_by(51) {
            for b in (0..=255u32).step_by(85) {
                let c = [r as u8, g as u8, b as u8];
                let cube = rgb_xyz_256(&c);
                let mut picked_cube = false;
                for &bias in biases.iter() {
                    let i = rgb_to_256(&c, &ColorAttributes::new(bias));
                    assert!(i >= 16);
                    if picked_cube {
                        assert_eq!(i, cube);
                    }
                    if i == cube {
                        picked_cube = true;
                    } else {
                        seen_flip = true;
                    }
                }
                assert_eq!(rgb_to_256(&c, &ColorAttributes::new(u32::MAX)), cube);
            }
        }
    }
    assert!(seen_flip);
}

#[test]
fn rgb_to_256_bias_switches_near_gray_to_cube() {
    // (120, 120, 128): ramp entry 243 at distance 278, cube entry 103 at 6983.
    let c = [120u8, 120, 128];
    assert_eq!(dist(&c, &palette_color(243)), 278);
    assert_eq!(dist(&c, &palette_color(103)), 6983);
    assert_eq!(rgb_to_256(&c, &ColorAttributes::new(6704)), 243);
    assert_eq!(rgb_to_256(&c, &ColorAttributes::new(6705)), 103);
    assert_eq!(rgb_to_256(&c, &ColorAttributes::new(u32::MAX)), 103);
}
