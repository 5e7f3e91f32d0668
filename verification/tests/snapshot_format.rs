use serial_checker::baseboard::{BaseboardInfo, RawBaseboardData};
use serial_checker::baseline::PreviousSerials;
use serial_checker::chassis::{ChassisInfo, RawChassisData};
use serial_checker::disk::{DiskInfo, RawDiskDrive, RawMsftDisk};
use serial_checker::gpu::{GpuInfo, RawVideoController};
use serial_checker::monitor::{MonitorInfo, RawMonitorId};
use serial_checker::network::{NetworkInfo, RawNetworkAdapter, RawNetworkConfig};
use serial_checker::processor::{ProcessorInfo, RawProcessorData};
use serial_checker::snapshot::SnapshotModel;
use serial_checker::system::{RawSystemData, SystemInfo};

fn scalar_snapshot() -> SnapshotModel {
    let system = SystemInfo::collect(&RawSystemData {
        vendor: None,
        name: None,
        version: None,
        identifying_number: Some("SER-001".to_string()),
        uuid: Some("11111111-2222".to_string()),
        sku_number: None,
        manufacturer: Some("Frobnitz".to_string()),
        model: None,
        system_family: None,
        system_sku_number: Some("SKU-9".to_string()),
    });
    let baseboard = BaseboardInfo::collect(&RawBaseboardData {
        manufacturer: None,
        product: None,
        version: None,
        serial_number: Some("BB-777".to_string()),
        tag: None,
    });
    let processor = ProcessorInfo::collect(&RawProcessorData {
        manufacturer: None,
        name: None,
        serial_number: Some("To Be Filled By O.E.M.".to_string()),
        part_number: None,
        asset_tag: None,
        socket_designation: None,
        number_of_cores: Some(8),
        number_of_logical_processors: Some(16),
    });
    let chassis = ChassisInfo::collect(&RawChassisData {
        manufacturer: None,
        chassis_types: Some(vec![3]),
        version: None,
        serial_number: Some("  CH-5  ".to_string()),
        smbios_asset_tag: None,
        sku: None,
    });
    SnapshotModel {
        system,
        baseboard,
        processor,
        chassis,
        disk: DiskInfo::default(),
        network: NetworkInfo::default(),
        monitor: MonitorInfo::default(),
        gpu: GpuInfo::default(),
    }
}

#[test]
fn serializer_renders_fixed_sections_in_order() {
    let m = scalar_snapshot();
    let text = m.serialize();
    let expected = "=== SYSTEM ===\n\
                    Serial Number: SER-001\n\
                    UUID: 11111111-2222\n\
                    SKU: SKU-9\n\
                    \n\
                    === BASEBOARD ===\n\
                    Serial Number: BB-777\n\
                    Asset Tag: N/A\n\
                    \n\
                    === PROCESSOR ===\n\
                    Serial Number: N/A\n\
                    Part Number: N/A\n\
                    \n\
                    === CHASSIS ===\n\
                    Serial Number: CH-5\n\
                    Asset Tag: N/A\n\
                    SKU: N/A\n\
                    \n\
                    === DISKS ===\n\
                    \n\
                    === NETWORK ===\n\
                    \n\
                    === MONITORS ===\n\
                    \n\
                    === GPU ===\n";
    assert_eq!(text, expected);
}

#[test]
fn round_trip_recovers_exactly_the_non_sentinel_scalars() {
    let m = scalar_snapshot();
    let b = PreviousSerials::parse(&m.serialize());
    assert_eq!(b.system_serial.as_deref(), Some("SER-001"));
    assert_eq!(b.system_uuid.as_deref(), Some("11111111-2222"));
    assert_eq!(b.system_sku.as_deref(), Some("SKU-9"));
    assert_eq!(b.baseboard_serial.as_deref(), Some("BB-777"));
    assert_eq!(b.processor_serial, None);
    assert_eq!(b.chassis_serial.as_deref(), Some("CH-5"));
    assert!(b.disk_serials.is_empty());
    assert!(b.network_macs.is_empty());
    assert!(b.monitor_serials.is_empty());
    assert!(b.gpu_guids.is_empty());
}

#[test]
fn round_trip_recovers_list_values() {
    let mut m = scalar_snapshot();
    m.disk = DiskInfo::collect(
        &vec![
            RawDiskDrive {
                model: Some("Alpha SSD".to_string()),
                serial_number: Some("DSK-1".to_string()),
                interface_type: Some("SCSI".to_string()),
                status: Some("OK".to_string()),
            },
            RawDiskDrive {
                model: Some("Beta HDD".to_string()),
                serial_number: None,
                interface_type: None,
                status: None,
            },
        ],
        &vec![RawMsftDisk { unique_id: Some("WWN-1".to_string()) }],
    );
    m.network = NetworkInfo::collect(
        &vec![RawNetworkAdapter {
            name: Some("Ethernet".to_string()),
            mac_address: Some("AA:BB:CC:DD:EE:FF".to_string()),
        }],
        &vec![RawNetworkConfig {
            mac_address: Some("AA:BB:CC:DD:EE:FF".to_string()),
            ip_address: Some(vec!["10.0.0.2".to_string()]),
        }],
    );
    m.monitor = MonitorInfo::collect(
        &vec![RawMonitorId {
            manufacturer_name: None,
            product_code_id: None,
            serial_number_id: Some("MON-77".encode_utf16().collect()),
            user_friendly_name: Some("Screen One".encode_utf16().collect()),
        }],
        &vec![],
    );
    m.gpu = GpuInfo::collect(
        &vec![RawVideoController {
            name: Some("GeForce Thing".to_string()),
            adapter_ram: Some(2 * 1024 * 1024 * 1024),
            adapter_compatibility: None,
            video_processor: None,
            pnp_device_id: Some("PCI\\VEN".to_string()),
        }],
        &vec![Some("{4d36e968-e325-11ce-bfc1-08002be10318}".to_string())],
    );
    let b = PreviousSerials::parse(&m.serialize());
    assert_eq!(b.disk_serials, vec!["DSK-1".to_string()]);
    assert_eq!(b.network_macs, vec!["AA:BB:CC:DD:EE:FF".to_string()]);
    assert_eq!(b.monitor_serials, vec!["MON-77".to_string()]);
    assert_eq!(b.gpu_guids, vec!["{4d36e968-e325-11ce-bfc1-08002be10318}".to_string()]);
}

#[test]
fn parser_is_lenient_about_sections_and_noise() {
    let text = "garbage line without separator\n\
                === SERIAL EXPORT ===\n\
                Generated: 2024-01-01 00:00:00\n\
                === SYSTEM ===\n\
                Serial Number: FIRST\n\
                Serial Number: SECOND\n\
                Unrelated: value\n\
                === UNKNOWN SECTION ===\n\
                Serial Number: IGNORED\n\
                === SYSTEM ===\n\
                UUID: U-1\n";
    let b = PreviousSerials::parse(text);
    assert_eq!(b.system_serial.as_deref(), Some("SECOND"));
    assert_eq!(b.system_uuid.as_deref(), Some("U-1"));
    assert_eq!(b.system_sku, None);
}

#[test]
fn parser_skips_empty_and_sentinel_values() {
    let text = "=== SYSTEM ===\n\
                Serial Number: N/A\n\
                UUID:   \n\
                SKU: real\n";
    let b = PreviousSerials::parse(text);
    assert_eq!(b.system_serial, None);
    assert_eq!(b.system_uuid, None);
    assert_eq!(b.system_sku.as_deref(), Some("real"));
}

#[test]
fn parser_dispatches_list_sections_by_key_shape() {
    let text = "=== DISKS ===\n\
                Disk 1: Some Model\n\
                  Serial (Storage Query): D-1\n\
                  WWN: W-1\n\
                === NETWORK ===\n\
                Ethernet: M-1\n\
                Wi-Fi: M-2\n\
                === MONITORS ===\n\
                \\DISPLAY1: Some Screen\n\
                  Serial Number: S-1\n\
                  ID Serial: I-1\n\
                === GPU ===\n\
                Fancy GPU\n\
                  PCI Device: P-1\n\
                  GUID: G-1\n";
    let b = PreviousSerials::parse(text);
    assert_eq!(b.disk_serials, vec!["D-1".to_string()]);
    assert_eq!(b.network_macs, vec!["M-1".to_string(), "M-2".to_string()]);
    assert_eq!(b.monitor_serials, vec!["S-1".to_string()]);
    assert_eq!(b.gpu_guids, vec!["G-1".to_string()]);
}

#[test]
fn parser_never_fails_on_arbitrary_input() {
    let b = PreviousSerials::parse("=== ===\n:::\n=x=\n\n\n::");
    assert_eq!(b.system_serial, None);
    assert!(b.disk_serials.is_empty());
}
