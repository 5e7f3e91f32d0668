use serial_checker::bios::{BiosInfo, RawBiosData};
use serial_checker::chassis::ChassisInfo;
use serial_checker::compare::{ScalarCategory, SerialStatus};
use serial_checker::disk::{DiskInfo, RawDiskDrive, RawMsftDisk};
use serial_checker::gpu::{GpuInfo, RawVideoController};
use serial_checker::monitor::{MonitorInfo, RawDesktopMonitor};
use serial_checker::posture::PlatformSignals;
use serial_checker::processor::{ProcessorInfo, RawProcessorData};
use serial_checker::session::Session;
use serial_checker::snapshot::SnapshotModel;
use serial_checker::tabs::Tab;

#[test]
fn chassis_type_names_follow_the_table() {
    assert_eq!(ChassisInfo::chassis_type_name(3), "Desktop");
    assert_eq!(ChassisInfo::chassis_type_name(9), "Laptop");
    assert_eq!(ChassisInfo::chassis_type_name(23), "Rack Mount Chassis");
    assert_eq!(ChassisInfo::chassis_type_name(36), "Stick PC");
    assert_eq!(ChassisInfo::chassis_type_name(99), "Unknown");
}

#[test]
fn processor_counts_render_in_decimal() {
    let p = ProcessorInfo::collect(&RawProcessorData {
        manufacturer: Some("GenuineIntel".to_string()),
        name: Some("Example CPU".to_string()),
        serial_number: None,
        part_number: None,
        asset_tag: None,
        socket_designation: Some("LGA1700".to_string()),
        number_of_cores: Some(12),
        number_of_logical_processors: None,
    });
    assert_eq!(p.core_count, "12");
    assert_eq!(p.thread_count, "N/A");
    assert_eq!(p.serial_number, "N/A");
    assert_eq!(p.manufacturer, "GenuineIntel");
}

#[test]
fn disk_interface_and_smart_fields_follow_the_raw_record() {
    let d = DiskInfo::collect(
        &vec![
            RawDiskDrive {
                model: Some("NVMe Drive".to_string()),
                serial_number: Some("  S-9  ".to_string()),
                interface_type: Some("NVMe (PCIe)".to_string()),
                status: Some("Degraded".to_string()),
            },
            RawDiskDrive {
                model: None,
                serial_number: None,
                interface_type: Some("IDE".to_string()),
                status: Some("OK".to_string()),
            },
        ],
        &vec![],
    );
    assert_eq!(d.disks.len(), 2);
    assert_eq!(d.disks[0].storage_query, "S-9");
    assert_eq!(d.disks[0].smart_data, "Status: Degraded");
    assert_eq!(d.disks[0].scsi, "NVMe");
    assert_eq!(d.disks[0].ata, "N/A");
    assert_eq!(d.disks[0].wwn, "N/A");
    assert_eq!(d.disks[1].model, "N/A");
    assert_eq!(d.disks[1].smart_data, "OK");
    assert_eq!(d.disks[1].scsi, "N/A");
    assert_eq!(d.disks[1].ata, "Supported");
}

#[test]
fn gpu_vram_renders_in_the_largest_fitting_unit() {
    let g = GpuInfo::collect(
        &vec![
            RawVideoController {
                name: Some("Radeon Thing".to_string()),
                adapter_ram: Some(8 * 1024 * 1024 * 1024),
                adapter_compatibility: None,
                video_processor: None,
                pnp_device_id: None,
            },
            RawVideoController {
                name: Some("Mystery".to_string()),
                adapter_ram: Some(512 * 1024 * 1024),
                adapter_compatibility: Some("Intel".to_string()),
                video_processor: None,
                pnp_device_id: None,
            },
            RawVideoController {
                name: None,
                adapter_ram: Some(1000),
                adapter_compatibility: Some("Vendor".to_string()),
                video_processor: Some("VP".to_string()),
                pnp_device_id: None,
            },
        ],
        &vec![None, None, None],
    );
    assert_eq!(g.gpus[0].vram, "8 GB");
    assert_eq!(g.gpus[0].vendor, "AMD");
    assert_eq!(g.gpus[0].guid, "N/A (LIKELY AMD GPU)");
    assert_eq!(g.gpus[1].vram, "512 MB");
    assert_eq!(g.gpus[1].guid, "N/A");
    assert_eq!(g.gpus[2].vram, "1000 bytes");
    assert_eq!(g.gpus[2].name, "VP");
}

#[test]
fn monitor_decode_drops_terminator_and_trims() {
    let data: Vec<u16> = vec![32, 72, 105, 32, 0, 88, 88];
    assert_eq!(MonitorInfo::decode_wmi_string(&Some(data)), Some("Hi".to_string()));
    assert_eq!(MonitorInfo::decode_wmi_string(&Some(vec![32, 0])), None);
    assert_eq!(MonitorInfo::decode_wmi_string(&None), None);
}

#[test]
fn monitor_pnp_serial_takes_the_last_path_component() {
    let pnp = Some("DISPLAY\\DEL404D\\5&12345678&0&UID256".to_string());
    assert_eq!(MonitorInfo::extract_serial_from_pnp(&pnp), "5&12345678&0&UID256");
    assert_eq!(MonitorInfo::extract_serial_from_pnp(&None), "N/A");
    assert_eq!(MonitorInfo::extract_serial_from_pnp(&Some("tail\\".to_string())), "N/A");
}

#[test]
fn monitor_fallback_uses_desktop_records() {
    let m = MonitorInfo::collect(
        &vec![],
        &vec![RawDesktopMonitor {
            name: Some("Generic Monitor".to_string()),
            monitor_manufacturer: None,
            monitor_type: Some("FancyType".to_string()),
            pnp_device_id: Some("DISPLAY\\ABC\\SER-5".to_string()),
            screen_width: Some(1920),
            screen_height: Some(1080),
        }],
    );
    assert_eq!(m.monitors.len(), 1);
    assert_eq!(m.monitors[0].display_name, "\\DISPLAY1");
    assert_eq!(m.monitors[0].model, "FancyType");
    assert_eq!(m.monitors[0].serial_number, "SER-5");
    assert_eq!(m.monitors[0].resolution, "1920x1080");
    assert_eq!(m.monitors[0].manufacturer, "Unknown");
}

#[test]
fn bios_release_date_is_reformatted() {
    assert_eq!(BiosInfo::format_release_date("20231015000000.000000+000"), "10/15/2023");
    assert_eq!(BiosInfo::format_release_date("short"), "short");
    let b = BiosInfo::collect(&RawBiosData {
        manufacturer: Some("AMI".to_string()),
        smbios_bios_version: None,
        version: Some("1.2.3".to_string()),
        release_date: Some("20231015000000.000000+000".to_string()),
        secure_boot: true,
        core_isolation: false,
        virtualization: true,
        tpm_enabled: false,
    });
    assert_eq!(b.vendor, "AMI");
    assert_eq!(b.version, "1.2.3");
    assert_eq!(b.release_date, "10/15/2023");
    assert!(b.secure_boot);
    assert!(!b.tpm_enabled);
}

#[test]
fn session_compares_through_a_loaded_baseline() {
    let snapshot = SnapshotModel::default();
    let signals = PlatformSignals {
        oem_vendor: None,
        is_tier1_oem: false,
        secure_boot: false,
        tpm_active: false,
        vbs: false,
        hvci: false,
    };
    let mut session = Session::new(snapshot, &signals);
    assert!(session.baseline().is_none());
    assert_eq!(session.compare_scalar(ScalarCategory::SystemSerial), None);
    assert_eq!(session.advice().len(), 5);

    session.load_baseline("=== SYSTEM ===\nSerial Number: ABC\n");
    assert_eq!(
        session.compare_scalar(ScalarCategory::SystemSerial),
        Some(SerialStatus::New)
    );
    let text = session.serialize();
    assert!(text.starts_with("=== SYSTEM ===\n"));
}

#[test]
fn tabs_expose_labels_and_order() {
    let all = Tab::all();
    assert_eq!(all.len(), 9);
    assert_eq!(all[0], Tab::System);
    assert_eq!(all[0].label(), "System");
    assert_eq!(all[8], Tab::Gpu);
    assert_eq!(all[8].label(), "GPU");
    assert_eq!(Tab::Bios.label(), "BIOS");
    assert!(!Tab::Disk.icon().is_empty());
}
