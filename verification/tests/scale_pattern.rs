use jsb_std::scale_pattern::ScalePattern;
use jsb_std::scale_pattern::harmonic_minor_scale;
use jsb_std::scale_pattern::major_scale;
use jsb_std::scale_pattern::melodic_minor_scale;
use jsb_std::scale_pattern::natural_minor_scale;

#[test]
fn test_major_scale() {
    let expected_intervals: Vec<u8> = vec![2, 4, 5, 7, 9, 11, 12];
    let expected_steps: Vec<u8> = vec![2, 2, 1, 2, 2, 2, 1];

    assert_eq!(major_scale().pattern(), 0b0000_1101_0101_1010);

    let intervals = major_scale().intervals();
    assert_eq!(intervals, expected_intervals);

    let steps = major_scale().steps();
    assert_eq!(steps, expected_steps);

    assert!(major_scale().is_major());
    assert!(!major_scale().is_minor());

    let d3: u8 = major_scale().degree(3);
    assert_eq!(d3, 5);

    let d5: u8 = major_scale().degree(5);
    assert_eq!(d5, 9);
}

#[test]
fn test_minor_scale() {
    let expected_intervals: Vec<u8> = vec![2, 3, 5, 7, 8, 10, 12];
    let expected_steps: Vec<u8> = vec![2, 1, 2, 2, 1, 2, 2];

    assert_eq!(natural_minor_scale().pattern(), 0b0000_1010_1101_0110);

    let intervals = natural_minor_scale().intervals();
    assert_eq!(intervals, expected_intervals);

    let steps = natural_minor_scale().steps();
    assert_eq!(steps, expected_steps);

    assert!(!natural_minor_scale().is_major());
    assert!(natural_minor_scale().is_minor());

    let d3: u8 = natural_minor_scale().degree(3);
    assert_eq!(d3, 5);

    let d5: u8 = natural_minor_scale().degree(5);
    assert_eq!(d5, 8);
}

#[test]
fn test_harmonic_scale() {
    let expected_intervals: Vec<u8> = vec![2, 3, 5, 7, 8, 11, 12];
    let expected_steps: Vec<u8> = vec![2, 1, 2, 2, 1, 3, 1];

    assert_eq!(harmonic_minor_scale().pattern(), 0b0000_1100_1101_0110);

    let intervals = harmonic_minor_scale().intervals();
    assert_eq!(intervals, expected_intervals);

    let steps = harmonic_minor_scale().steps();
    assert_eq!(steps, expected_steps);

    assert!(!harmonic_minor_scale().is_major());
    assert!(harmonic_minor_scale().is_minor());

    let d3: u8 = harmonic_minor_scale().degree(3);
    assert_eq!(d3, 5);

    let d5: u8 = harmonic_minor_scale().degree(5);
    assert_eq!(d5, 8);
}

#[test]
fn test_melodic_scale() {
    let expected_intervals: Vec<u8> = vec![2, 3, 5, 7, 9, 11, 12];
    let expected_steps: Vec<u8> = vec![2, 1, 2, 2, 2, 2, 1];

    assert_eq!(melodic_minor_scale().pattern(), 0b0000_1101_0101_0110);

    let intervals = melodic_minor_scale().intervals();
    assert_eq!(intervals, expected_intervals);

    let steps = melodic_minor_scale().steps();
    assert_eq!(steps, expected_steps);

    assert!(!melodic_minor_scale().is_major());
    assert!(melodic_minor_scale().is_minor());

    let d3: u8 = melodic_minor_scale().degree(3);
    assert_eq!(d3, 5);

    let d5: u8 = melodic_minor_scale().degree(5);
    assert_eq!(d5, 9);
}

#[test]
fn test_pattern_round_trip() {
    // A raw value with bits set above the 12-bit pattern field.
    let s = ScalePattern::from_u16(0xFABC);
    assert_eq!(s.pattern(), 0x0ABC);
    // Repeated calls return the same masked value.
    assert_eq!(s.pattern(), s.pattern());
    assert_eq!(ScalePattern::from_u16(s.pattern()).pattern(), 0x0ABC);

    // A value already within the pattern field is returned exactly.
    assert_eq!(ScalePattern::from_u16(0x0123).pattern(), 0x0123);
}

#[test]
fn test_intervals_ascend_and_steps_telescope() {
    // A non-diatonic mask: the decoding is total and keeps its laws.
    let s = ScalePattern::from_u16(0b1010_0010_0101);
    let intervals = s.intervals();
    assert_eq!(intervals, vec![1, 3, 6, 10, 12]);
    for w in intervals.windows(2) {
        assert!(w[0] < w[1]);
    }
    let steps = s.steps();
    assert_eq!(steps.len(), intervals.len());
    let total: u32 = steps.iter().map(|&x| u32::from(x)).sum();
    assert_eq!(total, u32::from(*intervals.last().unwrap()));
    // Bit 11 is set, so the steps span the full octave.
    assert_eq!(total, 12);
}

#[test]
fn test_empty_mask_decodes_to_nothing() {
    let s = ScalePattern::from_u16(0);
    assert!(s.intervals().is_empty());
    assert!(s.steps().is_empty());
    assert_eq!(s.checked_degree(1), None);
    assert!(!s.is_major());
    assert!(!s.is_minor());
}

#[test]
fn test_degree_out_of_bounds_is_rejected() {
    // Three set bits: degrees 1 to 3 answer, degree 4 does not exist.
    let s = ScalePattern::from_u16(0b0000_0010_0011);
    assert_eq!(s.checked_degree(1), Some(1));
    assert_eq!(s.checked_degree(2), Some(2));
    assert_eq!(s.checked_degree(3), Some(6));
    assert_eq!(s.checked_degree(4), None);
    assert_eq!(s.checked_degree(0), None);
}
