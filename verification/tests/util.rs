use aya::util::{count_range, parse_u32, possible_cpus};

#[test]
fn decimal_numbers_are_read_up_to_32_bits() {
    assert_eq!(parse_u32(b"0"), Some(0));
    assert_eq!(parse_u32(b"007"), Some(7));
    assert_eq!(parse_u32(b"4294967295"), Some(u32::MAX));
    assert_eq!(parse_u32(b"4294967296"), None);
    assert_eq!(parse_u32(b"99999999999999999999999"), None);
    assert_eq!(parse_u32(b""), None);
    assert_eq!(parse_u32(b"12a"), None);
    assert_eq!(parse_u32(b"-1"), None);
    assert_eq!(parse_u32(b" 1"), None);
}

#[test]
fn a_range_counts_its_numbers() {
    assert_eq!(count_range(b"5"), Some(1));
    assert_eq!(count_range(b"0-3"), Some(4));
    assert_eq!(count_range(b"7-7"), Some(1));
    assert_eq!(count_range(b"9-8"), Some(0));
    assert_eq!(count_range(b"0-4294967295"), Some(1 << 32));
    assert_eq!(count_range(b"0-"), None);
    assert_eq!(count_range(b"-3"), None);
    assert_eq!(count_range(b"1-2-3"), None);
    assert_eq!(count_range(b""), None);
}

#[test]
fn possible_cpus_are_counted_over_all_ranges() {
    assert_eq!(possible_cpus(b"0\n"), Some(1));
    assert_eq!(possible_cpus(b"0-7\n"), Some(8));
    assert_eq!(possible_cpus(b"0-7"), Some(8));
    assert_eq!(possible_cpus(b"0-3,8,10-11\n"), Some(7));
    assert_eq!(possible_cpus(b"0-127,256-383"), Some(256));
    assert_eq!(possible_cpus(b"3-1"), None);
    assert_eq!(possible_cpus(b"3-1,2-0\n"), None);
    assert_eq!(possible_cpus(b"3-1,5"), Some(1));
    assert_eq!(possible_cpus(b""), None);
    assert_eq!(possible_cpus(b"\n"), None);
    assert_eq!(possible_cpus(b"0-3,\n"), None);
    assert_eq!(possible_cpus(b",0-3"), None);
    assert_eq!(possible_cpus(b"0-3\n\n"), None);
    assert_eq!(possible_cpus(b"0-3 \n"), None);
    assert_eq!(possible_cpus(b"0-4294967295"), None);
    assert_eq!(possible_cpus(b"0-4294967294"), Some(u32::MAX));
    assert_eq!(possible_cpus(b"2-4294967295,0"), Some(u32::MAX));
    assert_eq!(possible_cpus(b"2-4294967295,0,0"), None);
}
