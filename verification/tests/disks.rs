use blaine::disks_meter::{
    check_disks, counts_can_rise, evaluate_disk, missing_disk_message, AnnaDisk, DiskEvent, DiskMonitoringConfig,
};

fn disk(alias: &str, count: u64) -> AnnaDisk {
    let mut d = AnnaDisk::new(alias.to_string(), format!("/mnt/{}", alias));
    d.DISK_DIRECTIVES = count;
    d
}

fn cfg(max: u64, upper: u64) -> DiskMonitoringConfig {
    DiskMonitoringConfig { max_directives: max, upper_max_directives: upper, sleep_time: 3 }
}

#[test]
fn disk_config_defaults() {
    let c = DiskMonitoringConfig::new();
    assert_eq!(c.max_directives, 0);
    assert_eq!(c.upper_max_directives, 30);
    assert_eq!(c.sleep_time, 3);
}

#[test]
fn new_disk_starts_clear() {
    let d = AnnaDisk::new("Tillie".to_string(), "/media/tillie".to_string());
    assert_eq!(d.alias, "Tillie");
    assert_eq!(d.disk_path, "/media/tillie");
    assert_eq!(d.DISK_DIRECTIVES, 0);
}

#[test]
fn describe_quotes_the_path() {
    let d = AnnaDisk::new("Ferb".to_string(), "D:\\x".to_string());
    assert_eq!(d.describe(), "Ferb::<\"D:\\\\x\">");
}

#[test]
fn missing_message_text() {
    assert_eq!(missing_disk_message("Tillie"), "The Disk [Tillie] is missing from the system");
}

#[test]
fn present_disk_is_cleared() {
    let mut d = disk("a", 7);
    assert_eq!(evaluate_disk(&mut d, true, &cfg(2, 5)), DiskEvent::Cleared);
    assert_eq!(d.DISK_DIRECTIVES, 0);
}

#[test]
fn missing_streak_notices_then_escalates_then_gives_up() {
    let c = cfg(2, 4);
    let mut d = disk("a", 0);
    let expected = [
        DiskEvent::Notice,
        DiskEvent::Notice,
        DiskEvent::Escalation,
        DiskEvent::Escalation,
        DiskEvent::GiveUp,
        DiskEvent::GiveUp,
    ];
    for (k, e) in expected.iter().enumerate() {
        assert_eq!(evaluate_disk(&mut d, false, &c), *e);
        assert_eq!(d.DISK_DIRECTIVES, k as u64 + 1);
    }
}

#[test]
fn default_config_escalates_at_once() {
    let mut d = disk("a", 0);
    assert_eq!(evaluate_disk(&mut d, false, &DiskMonitoringConfig::new()), DiskEvent::Escalation);
}

#[test]
fn pass_covers_all_disks_without_give_up() {
    let mut disks = vec![disk("a", 3), disk("b", 0), disk("c", 1)];
    let events = check_disks(&mut disks, &vec![true, false, false], &cfg(1, 10));
    assert_eq!(events, vec![DiskEvent::Cleared, DiskEvent::Notice, DiskEvent::Escalation]);
    let counts: Vec<u64> = disks.iter().map(|d| d.DISK_DIRECTIVES).collect();
    assert_eq!(counts, vec![0, 1, 2]);
}

#[test]
fn pass_stops_at_give_up() {
    let mut disks = vec![disk("a", 0), disk("b", 5), disk("c", 9), disk("d", 2)];
    let events = check_disks(&mut disks, &vec![false, false, true, false], &cfg(1, 5));
    assert_eq!(events, vec![DiskEvent::Notice, DiskEvent::GiveUp]);
    let counts: Vec<u64> = disks.iter().map(|d| d.DISK_DIRECTIVES).collect();
    assert_eq!(counts, vec![1, 6, 9, 2]);
}

#[test]
fn empty_pass() {
    let mut disks: Vec<AnnaDisk> = Vec::new();
    assert!(check_disks(&mut disks, &Vec::new(), &cfg(0, 30)).is_empty());
}

#[test]
fn full_count_after_give_up_is_untouched() {
    let mut disks = vec![disk("a", 40), disk("b", u64::MAX)];
    let events = check_disks(&mut disks, &vec![false, false], &cfg(0, 30));
    assert_eq!(events, vec![DiskEvent::GiveUp]);
    assert_eq!(disks[0].DISK_DIRECTIVES, 41);
    assert_eq!(disks[1].DISK_DIRECTIVES, u64::MAX);
}

#[test]
fn counts_can_rise_exactly_when_no_reached_disk_is_full() {
    let c = cfg(0, 30);
    assert!(counts_can_rise(&vec![disk("a", 40), disk("b", u64::MAX)], &vec![false, false], &c));
    assert!(!counts_can_rise(&vec![disk("a", 1), disk("b", u64::MAX)], &vec![false, false], &c));
    assert!(counts_can_rise(&vec![disk("a", 1), disk("b", u64::MAX)], &vec![false, true], &c));
    assert!(counts_can_rise(&Vec::new(), &Vec::new(), &c));
}

#[test]
fn describe_shows_path_as_path_debug() {
    let d = AnnaDisk::new("Ferb".to_string(), "/mnt/ferb's \"disk\"".to_string());
    let expected = format!("Ferb::<{:?}>", std::path::PathBuf::from("/mnt/ferb's \"disk\""));
    assert_eq!(d.describe(), expected);
    assert_eq!(d.describe(), "Ferb::<\"/mnt/ferb's \\\"disk\\\"\">");
}

#[test]
fn successive_passes_over_a_missing_disk() {
    let c = cfg(2, 4);
    let mut disks = vec![disk("a", 0), disk("b", 0)];
    let mut first_events = Vec::new();
    for _ in 0..6 {
        let events = check_disks(&mut disks, &vec![false, true], &c);
        first_events.push(events[0]);
    }
    assert_eq!(disks[0].DISK_DIRECTIVES, 6);
    assert_eq!(
        first_events,
        vec![
            DiskEvent::Notice,
            DiskEvent::Notice,
            DiskEvent::Escalation,
            DiskEvent::Escalation,
            DiskEvent::GiveUp,
            DiskEvent::GiveUp,
        ]
    );
    assert_eq!(first_events.iter().filter(|e| **e != DiskEvent::GiveUp).count(), 4);
}
