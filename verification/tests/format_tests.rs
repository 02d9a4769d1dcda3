use ctasks::format::{dec_string, format_bytes, format_hz, format_percent, round_bytes_list};
use ctasks::preferences::{ByteBase, Preferences};

fn prefs(base: ByteBase) -> Preferences {
    let mut p = Preferences::new();
    p.byte_base = base;
    p
}

#[test]
fn binary_kibibytes() {
    let p = prefs(ByteBase::Binary);
    assert_eq!(format_bytes(&p, 2048), "2.00 KiB");
}

#[test]
fn decimal_kilobytes() {
    let p = prefs(ByteBase::Decimal);
    assert_eq!(format_bytes(&p, 1500), "1.50 KB");
}

#[test]
fn small_magnitude_stays_in_bytes() {
    let p = prefs(ByteBase::Binary);
    assert_eq!(format_bytes(&p, 512), "512.00 B");
}

#[test]
fn zero_bytes() {
    let p = prefs(ByteBase::Binary);
    assert_eq!(format_bytes(&p, 0), "0.00 B");
}

#[test]
fn one_mebibyte() {
    let p = prefs(ByteBase::Binary);
    assert_eq!(format_bytes(&p, 1024 * 1024), "1.00 MiB");
}

#[test]
fn rounding_is_half_up() {
    let p = prefs(ByteBase::Binary);
    // 1536 / 1024 = 1.5 exactly
    assert_eq!(format_bytes(&p, 1536), "1.50 KiB");
    // 2000 / 1024 = 1.953125 -> 1.95
    assert_eq!(format_bytes(&p, 2000), "1.95 KiB");
}

#[test]
fn decimal_table_differs_from_binary() {
    let p = prefs(ByteBase::Decimal);
    assert_eq!(format_bytes(&p, 1_000_000), "1.00 MB");
    let b = prefs(ByteBase::Binary);
    assert_eq!(format_bytes(&b, 1_048_576), "1.00 MiB");
}

#[test]
fn grouped_values_share_the_larger_unit() {
    let p = prefs(ByteBase::Binary);
    let (values, unit) = round_bytes_list(&p, vec![500, 2000]);
    assert_eq!(values, vec!["0.49 KiB".to_string(), "1.95 KiB".to_string()]);
    assert_eq!(unit, "KiB");
}

#[test]
fn grouped_single_value() {
    let p = prefs(ByteBase::Binary);
    let (values, unit) = round_bytes_list(&p, vec![512]);
    assert_eq!(values, vec!["512.00 B".to_string()]);
    assert_eq!(unit, "B");
}

#[test]
fn grouped_empty_list_has_placeholder_unit() {
    let p = prefs(ByteBase::Binary);
    let (values, unit) = round_bytes_list(&p, vec![]);
    assert_eq!(values.len(), 0);
    assert_eq!(unit, "none");
}

#[test]
fn megahertz_stays_unscaled() {
    let p = prefs(ByteBase::Binary);
    assert_eq!(format_hz(&p, 999), "999.00 MHz");
}

#[test]
fn gigahertz() {
    let p = prefs(ByteBase::Binary);
    assert_eq!(format_hz(&p, 1500), "1.50 GHz");
}

#[test]
fn terahertz_is_the_last_step() {
    let p = prefs(ByteBase::Binary);
    // 2_500_000_000 MHz scales past THz but must stop at the table's end.
    assert_eq!(format_hz(&p, 2_500_000_000), "2500.00 THz");
}

#[test]
fn percent_one_decimal() {
    assert_eq!(format_percent(1234), "12.3%");
    assert_eq!(format_percent(0), "0.0%");
    assert_eq!(format_percent(9999), "100.0%");
    assert_eq!(format_percent(50), "0.5%");
}

#[test]
fn decimal_digits() {
    assert_eq!(dec_string(0), "0");
    assert_eq!(dec_string(12345), "12345");
    assert_eq!(dec_string(u64::MAX as u128), "18446744073709551615");
}
