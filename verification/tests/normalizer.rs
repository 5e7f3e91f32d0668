use serial_checker::normalize::{is_placeholder, normalize};

#[test]
fn empty_is_placeholder() {
    assert!(is_placeholder(""));
}

#[test]
fn whitespace_only_is_placeholder() {
    assert!(is_placeholder("   \t  "));
}

#[test]
fn unicode_whitespace_only_is_placeholder() {
    assert!(is_placeholder("\u{a0}\u{2003}\u{3000}"));
    assert!(is_placeholder("\u{a0} unknown \u{a0}"));
}

#[test]
fn normalize_trims_unicode_whitespace() {
    assert_eq!(normalize("\u{a0}ABC-123\u{2009}"), "ABC-123");
}

#[test]
fn oem_filler_is_placeholder() {
    assert!(is_placeholder("To Be Filled By O.E.M."));
    assert!(is_placeholder("to be filled by o.e.m."));
    assert!(is_placeholder("OEM"));
    assert!(is_placeholder("  oem string  "));
}

#[test]
fn known_literals_are_placeholders_any_case() {
    assert!(is_placeholder("Default String"));
    assert!(is_placeholder("DEFAULT STRING"));
    assert!(is_placeholder("Not Specified"));
    assert!(is_placeholder("None"));
    assert!(is_placeholder("none"));
    assert!(is_placeholder("Unknown"));
    assert!(is_placeholder("UNKNOWN"));
    assert!(is_placeholder("System Serial Number"));
    assert!(is_placeholder("System Product Name"));
    assert!(is_placeholder("Base Board Serial Number"));
    assert!(is_placeholder("Chassis Serial Number"));
}

#[test]
fn real_serial_is_not_placeholder() {
    assert!(!is_placeholder("PF3ABCDE"));
}

#[test]
fn normalize_trims_real_values() {
    assert_eq!(normalize("  ABC-123  "), "ABC-123");
    assert_eq!(normalize("PF3ABCDE"), "PF3ABCDE");
}

#[test]
fn normalize_maps_placeholders_to_sentinel() {
    assert_eq!(normalize("To Be Filled By O.E.M."), "N/A");
    assert_eq!(normalize(""), "N/A");
    assert_eq!(normalize("  "), "N/A");
    assert_eq!(normalize("unknown"), "N/A");
}
