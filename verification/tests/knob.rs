use rgbcal::knob::{DARK, FULL_SCALE, SAMPLE_MAX, SATURATION};
use rgbcal::{Knob, LEVELS};

#[test]
fn knob_zero_reads_level_zero() {
    let knob = Knob::new();
    assert_eq!(knob.measure(0), 0);
}

#[test]
fn knob_largest_sample_reads_top_level() {
    let knob = Knob::new();
    assert_eq!(knob.measure(0x7fff), LEVELS - 1);
    assert_eq!(knob.measure(0x7fff), 15);
    assert_eq!(SAMPLE_MAX, 0x7fff);
}

#[test]
fn knob_negative_reading_counts_as_zero() {
    let knob = Knob::new();
    assert_eq!(knob.measure(-1), 0);
    assert_eq!(knob.measure(i16::MIN), 0);
}

#[test]
fn knob_level_follows_the_formula() {
    let knob = Knob::new();
    // 18 * 5000 / 10000 - 2 = 7
    assert_eq!(knob.measure(5000), 7);
    // 18 * 4444 / 10000 = 7.9992, 18 * 4445 / 10000 = 8.001
    assert_eq!(knob.measure(4444), 5);
    assert_eq!(knob.measure(4445), 6);
    // 18 * 2500 / 10000 - 2 = 2.5
    assert_eq!(knob.measure(2500), 2);
    assert_eq!(knob.measure(9000), 14);
    assert_eq!(FULL_SCALE, 10_000);
}

#[test]
fn knob_dead_zones_have_sharp_edges() {
    let knob = Knob::new();
    assert_eq!(knob.measure(DARK), 0);
    assert_eq!(knob.measure(DARK + 1), 1);
    assert_eq!(knob.measure(SATURATION - 1), 14);
    assert_eq!(knob.measure(SATURATION), 15);
    assert_eq!(knob.measure(10_000), 15);
    assert_eq!(DARK, 1666);
    assert_eq!(SATURATION, 9445);
}

#[test]
fn knob_every_reading_has_a_level_and_levels_never_fall() {
    let knob = Knob::new();
    let mut previous: u32 = 0;
    let mut raw: i16 = i16::MIN;
    loop {
        let level: u32 = knob.measure(raw);
        assert!(level < LEVELS);
        assert!(level >= previous);
        let sample: i64 = if raw < 0 { 0 } else { raw as i64 };
        let expected: i64 = (18 * sample / 10_000 - 2).clamp(0, 15);
        assert_eq!(level as i64, expected);
        previous = level;
        if raw == i16::MAX {
            break;
        }
        raw += 1;
    }
    assert_eq!(previous, 15);
}

#[test]
fn knob_every_level_is_reached() {
    let knob = Knob::new();
    let mut seen: [bool; 16] = [false; 16];
    let mut raw: i16 = 0;
    while raw < 10_000 {
        seen[knob.measure(raw) as usize] = true;
        raw += 1;
    }
    assert!(seen.iter().all(|s| *s));
}
