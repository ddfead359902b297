use blaine::battery_monitor::{eval_battery, BatteryAlert, BatteryConfig, BatteryState};
use blaine::level::Level;

fn lv(x: f64) -> Level {
    Level::from_bits(x.to_bits())
}

fn config(level: f64, state: BatteryState) -> BatteryConfig {
    BatteryConfig {
        battery_level: lv(level),
        battery_state: state,
        lower_limit: lv(0.22),
        upper_limit: lv(0.85),
        upper_critical: lv(0.91),
        lower_critical: lv(0.17),
        super_critical_low: lv(0.11),
    }
}

#[test]
fn level_keys_follow_float_order() {
    let xs = [-1.5, -0.0, 0.0, 0.11, 0.15, 0.5, 1.0, f64::INFINITY, f64::NEG_INFINITY];
    for a in xs.iter() {
        for b in xs.iter() {
            assert_eq!(lv(*a).less_than(&lv(*b)), a < b, "{} < {}", a, b);
        }
    }
}

#[test]
fn nan_compares_with_nothing() {
    let nan = lv(f64::NAN);
    assert_eq!(nan.key, None);
    assert!(!nan.less_than(&lv(0.5)));
    assert!(!lv(0.5).less_than(&nan));
}

#[test]
fn level_keys_exact() {
    assert_eq!(lv(0.0).key, Some(0));
    assert_eq!(lv(-0.0).key, Some(0));
    assert_eq!(lv(1.0).key, Some(0x3FF0_0000_0000_0000));
    assert_eq!(lv(-1.0).key, Some(-0x3FF0_0000_0000_0000));
    assert_eq!(lv(f64::INFINITY).key, Some(0x7FF0_0000_0000_0000));
}

#[test]
fn below_super_critical_shuts_down() {
    assert_eq!(eval_battery(&config(0.05, BatteryState::Discharging)), BatteryAlert::Echelon4);
}

#[test]
fn critically_low_when_discharging() {
    assert_eq!(eval_battery(&config(0.15, BatteryState::Discharging)), BatteryAlert::CriticalLow);
}

#[test]
fn low_when_discharging() {
    assert_eq!(eval_battery(&config(0.20, BatteryState::Discharging)), BatteryAlert::Low);
}

#[test]
fn low_levels_quiet_while_charging() {
    assert_eq!(eval_battery(&config(0.05, BatteryState::Charging)), BatteryAlert::Quiet);
    assert_eq!(eval_battery(&config(0.20, BatteryState::Charging)), BatteryAlert::Quiet);
}

#[test]
fn critically_high_when_not_discharging() {
    assert_eq!(eval_battery(&config(0.95, BatteryState::Charging)), BatteryAlert::CriticalHigh);
    assert_eq!(eval_battery(&config(0.95, BatteryState::Full)), BatteryAlert::CriticalHigh);
}

#[test]
fn high_when_not_discharging() {
    assert_eq!(eval_battery(&config(0.88, BatteryState::Unknown)), BatteryAlert::High);
}

#[test]
fn high_levels_quiet_while_discharging() {
    assert_eq!(eval_battery(&config(0.95, BatteryState::Discharging)), BatteryAlert::Quiet);
}

#[test]
fn healthy_band_is_quiet() {
    for x in [0.22, 0.5, 0.85] {
        assert_eq!(eval_battery(&config(x, BatteryState::Discharging)), BatteryAlert::Quiet);
        assert_eq!(eval_battery(&config(x, BatteryState::Charging)), BatteryAlert::Quiet);
    }
}

#[test]
fn nan_level_is_quiet() {
    assert_eq!(eval_battery(&config(f64::NAN, BatteryState::Discharging)), BatteryAlert::Quiet);
}

#[test]
fn thresholds_are_strict() {
    assert_eq!(eval_battery(&config(0.11, BatteryState::Discharging)), BatteryAlert::CriticalLow);
    assert_eq!(eval_battery(&config(0.91, BatteryState::Charging)), BatteryAlert::High);
}

#[test]
fn lower_level_never_milder() {
    fn sev(a: BatteryAlert) -> u8 {
        match a {
            BatteryAlert::Echelon4 => 3,
            BatteryAlert::CriticalLow => 2,
            BatteryAlert::Low => 1,
            _ => 0,
        }
    }
    let levels = [0.0, 0.05, 0.11, 0.15, 0.17, 0.2, 0.22, 0.5];
    for w in levels.windows(2) {
        let lo = eval_battery(&config(w[0], BatteryState::Discharging));
        let hi = eval_battery(&config(w[1], BatteryState::Discharging));
        assert!(sev(lo) >= sev(hi));
    }
}
