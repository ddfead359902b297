use blaine::chaeyoung::{chaeyoung_translate, disk_query};
use blaine::cli::{apply_disk_settings, demo, parsed_or};
use blaine::disks_meter::DiskMonitoringConfig;
use blaine::failed_networks::{check_interfaces, interface_down_message, InterfaceEvent};

#[test]
fn query_is_alias_in_braces() {
    assert_eq!(disk_query("Tillie"), "{Tillie}");
    assert_eq!(disk_query(""), "{}");
}

#[test]
fn translate_decodes_output() {
    assert_eq!(chaeyoung_translate(Ok(b"D:\\Disks\n".to_vec())), Ok("D:\\Disks\n".to_string()));
}

#[test]
fn translate_replaces_invalid_bytes() {
    assert_eq!(chaeyoung_translate(Ok(vec![b'a', 0xff, b'b'])), Ok("a\u{FFFD}b".to_string()));
}

#[test]
fn translate_passes_failure_on() {
    assert_eq!(
        chaeyoung_translate(Err("No such file or directory".to_string())),
        Err("No such file or directory".to_string())
    );
}

#[test]
fn option_parsing() {
    assert_eq!(parsed_or(Some("42"), 7), 42);
    assert_eq!(parsed_or(Some("+42"), 7), 42);
    assert_eq!(parsed_or(Some(" 42"), 7), 7);
    assert_eq!(parsed_or(Some("-1"), 7), 7);
    assert_eq!(parsed_or(Some(""), 7), 7);
    assert_eq!(parsed_or(Some("+"), 7), 7);
    assert_eq!(parsed_or(Some("18446744073709551615"), 7), u64::MAX);
    assert_eq!(parsed_or(Some("18446744073709551616"), 7), 7);
    assert_eq!(parsed_or(None, 7), 7);
}

#[test]
fn disk_settings_applied() {
    let mut c = DiskMonitoringConfig::new();
    apply_disk_settings(&mut c, Some("10"), None, Some("abc"));
    assert_eq!(c.sleep_time, 10);
    assert_eq!(c.max_directives, 0);
    assert_eq!(c.upper_max_directives, 30);
}

#[test]
fn demo_makes_array() {
    let a: [u32; 3] = demo(vec![1, 2, 3]);
    assert_eq!(a, [1, 2, 3]);
}

#[test]
fn interface_down_text() {
    assert_eq!(interface_down_message("Ethernet 5"), "Network Interface [Ethernet 5] is not running");
}

#[test]
fn interfaces_all_found() {
    assert_eq!(
        check_interfaces(&vec![Some(true), Some(false), Some(true)]),
        vec![InterfaceEvent::Running, InterfaceEvent::Stopped, InterfaceEvent::Running]
    );
}

#[test]
fn interfaces_stop_at_missing() {
    assert_eq!(
        check_interfaces(&vec![Some(false), None, Some(false)]),
        vec![InterfaceEvent::Stopped, InterfaceEvent::Missing]
    );
}

#[test]
fn translate_keeps_ascii_output() {
    assert_eq!(chaeyoung_translate(Ok(b"/mnt/tillie\n".to_vec())), Ok("/mnt/tillie\n".to_string()));
}
