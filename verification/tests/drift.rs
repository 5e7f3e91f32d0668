use serial_checker::baseline::PreviousSerials;
use serial_checker::compare::{ListCategory, ScalarCategory, SerialStatus};

fn baseline_with_system_serial(v: Option<&str>) -> PreviousSerials {
    let mut b = PreviousSerials::default();
    b.system_serial = v.map(|s| s.to_string());
    b
}

#[test]
fn scalar_unchanged_on_exact_match() {
    let b = baseline_with_system_serial(Some("ABC123"));
    assert_eq!(b.compare(ScalarCategory::SystemSerial, "ABC123"), SerialStatus::Unchanged);
}

#[test]
fn scalar_changed_carries_old_value() {
    let b = baseline_with_system_serial(Some("OLD999"));
    assert_eq!(
        b.compare(ScalarCategory::SystemSerial, "ABC123"),
        SerialStatus::Changed { old: "OLD999".to_string() }
    );
}

#[test]
fn scalar_new_without_recorded_value() {
    let b = baseline_with_system_serial(None);
    assert_eq!(b.compare(ScalarCategory::SystemSerial, "ABC123"), SerialStatus::New);
}

#[test]
fn scalar_new_for_sentinel_or_empty_current() {
    let b = baseline_with_system_serial(Some("ABC123"));
    assert_eq!(b.compare(ScalarCategory::SystemSerial, "N/A"), SerialStatus::New);
    assert_eq!(b.compare(ScalarCategory::SystemSerial, ""), SerialStatus::New);
}

#[test]
fn scalar_categories_read_their_own_fields() {
    let mut b = PreviousSerials::default();
    b.system_uuid = Some("u-1".to_string());
    b.baseboard_serial = Some("bb-1".to_string());
    b.chassis_serial = Some("ch-1".to_string());
    assert_eq!(b.compare(ScalarCategory::SystemUuid, "u-1"), SerialStatus::Unchanged);
    assert_eq!(b.compare(ScalarCategory::BaseboardSerial, "bb-1"), SerialStatus::Unchanged);
    assert_eq!(b.compare(ScalarCategory::ChassisSerial, "ch-1"), SerialStatus::Unchanged);
    assert_eq!(b.compare(ScalarCategory::ProcessorSerial, "p-1"), SerialStatus::New);
    assert_eq!(b.compare(ScalarCategory::SystemSku, "sku-1"), SerialStatus::New);
}

#[test]
fn list_membership_is_unchanged_regardless_of_position() {
    let mut b = PreviousSerials::default();
    b.disk_serials = vec!["SN-1".to_string(), "SN-42".to_string()];
    assert_eq!(b.compare_list(ListCategory::Disk, "SN-42"), SerialStatus::Unchanged);
    b.disk_serials = vec!["SN-42".to_string(), "SN-1".to_string()];
    assert_eq!(b.compare_list(ListCategory::Disk, "SN-42"), SerialStatus::Unchanged);
}

#[test]
fn list_mismatch_reports_fixed_marker() {
    let mut b = PreviousSerials::default();
    b.disk_serials = vec!["SN-1".to_string(), "SN-2".to_string()];
    assert_eq!(
        b.compare_list(ListCategory::Disk, "SN-42"),
        SerialStatus::Changed { old: "(different from previous)".to_string() }
    );
}

#[test]
fn list_empty_baseline_is_new() {
    let b = PreviousSerials::default();
    assert_eq!(b.compare_list(ListCategory::Disk, "SN-42"), SerialStatus::New);
}

#[test]
fn list_sentinel_current_is_new() {
    let mut b = PreviousSerials::default();
    b.network_macs = vec!["AA:BB".to_string()];
    assert_eq!(b.compare_list(ListCategory::Network, "N/A"), SerialStatus::New);
    assert_eq!(b.compare_list(ListCategory::Network, ""), SerialStatus::New);
}

#[test]
fn list_categories_read_their_own_lists() {
    let mut b = PreviousSerials::default();
    b.network_macs = vec!["AA:BB:CC".to_string()];
    b.monitor_serials = vec!["MON-1".to_string()];
    b.gpu_guids = vec!["{guid-1}".to_string()];
    assert_eq!(b.compare_list(ListCategory::Network, "AA:BB:CC"), SerialStatus::Unchanged);
    assert_eq!(b.compare_list(ListCategory::Monitor, "MON-1"), SerialStatus::Unchanged);
    assert_eq!(b.compare_list(ListCategory::Gpu, "{guid-1}"), SerialStatus::Unchanged);
    assert_eq!(b.compare_list(ListCategory::Disk, "AA:BB:CC"), SerialStatus::New);
}
