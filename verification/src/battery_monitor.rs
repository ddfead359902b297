//! Which battery alert a reading calls for.
//!
//! A reading is the charge level and the charging state of one battery; the
//! thresholds are levels too.  The checks run in a fixed order and the first
//! one that holds decides: shutting down below the super-critical level,
//! then the critically low alert, the low alert, the critically high alert
//! and the high alert.  Low alerts are raised only while the battery
//! discharges, high alerts only while it does not.

use vstd::prelude::*;

use crate::level::Level;

verus! {

/// The state a battery reports.
#[derive(Clone, Copy, Debug, PartialEq, Eq, Structural)]
pub enum BatteryState {
    Unknown,
    Charging,
    Discharging,
    Empty,
    Full,
}

/// A battery reading together with the thresholds it is judged against.
#[derive(Clone, Copy, Debug)]
pub struct BatteryConfig {
    pub battery_level: Level,
    pub battery_state: BatteryState,
    pub lower_limit: Level,
    pub upper_limit: Level,
    pub upper_critical: Level,
    pub lower_critical: Level,
    pub super_critical_low: Level,
}

/// What a reading calls for.
#[derive(Clone, Copy, Debug, PartialEq, Eq, Structural)]
pub enum BatteryAlert {
    /// Shut the machine down.
    Echelon4,
    /// Critically low: every alarm at once.
    CriticalLow,
    /// Low: a notification.
    Low,
    /// Critically high: a message box.
    CriticalHigh,
    /// High: a notification.
    High,
    /// Nothing to say.
    Quiet,
}

/// The battery is draining.
pub open spec fn discharging(config: BatteryConfig) -> bool {
    config.battery_state == BatteryState::Discharging
}

/// The alert for a reading: the first check that holds, in order.
pub open spec fn battery_alert(config: BatteryConfig) -> BatteryAlert {
    let level = config.battery_level;
    if level.lt(config.super_critical_low) && discharging(config) {
        BatteryAlert::Echelon4
    } else if level.lt(config.lower_critical) && discharging(config) {
        BatteryAlert::CriticalLow
    } else if level.lt(config.lower_limit) && discharging(config) {
        BatteryAlert::Low
    } else if config.upper_critical.lt(level) && !discharging(config) {
        BatteryAlert::CriticalHigh
    } else if config.upper_limit.lt(level) && !discharging(config) {
        BatteryAlert::High
    } else {
        BatteryAlert::Quiet
    }
}

/// How grave an alert about a low battery is.
pub open spec fn low_severity(alert: BatteryAlert) -> int {
    match alert {
        BatteryAlert::Echelon4 => 3,
        BatteryAlert::CriticalLow => 2,
        BatteryAlert::Low => 1,
        _ => 0,
    }
}

/// How grave an alert about a high battery is.
pub open spec fn high_severity(alert: BatteryAlert) -> int {
    match alert {
        BatteryAlert::CriticalHigh => 2,
        BatteryAlert::High => 1,
        _ => 0,
    }
}

/// The same thresholds and state with another charge level.
pub open spec fn with_level(config: BatteryConfig, level: Level) -> BatteryConfig {
    BatteryConfig { battery_level: level, ..config }
}

/// Decides which alert a reading calls for.
pub fn eval_battery(config: &BatteryConfig) -> (alert: BatteryAlert)
    ensures
        alert == battery_alert(*config),
        config.battery_state != BatteryState::Discharging && config.upper_critical.lt(
            config.battery_level,
        ) ==> alert == BatteryAlert::CriticalHigh,
        config.battery_state == BatteryState::Discharging && config.battery_level.lt(
            config.super_critical_low,
        ) ==> alert == BatteryAlert::Echelon4,
{
    let discharging = config.battery_state == BatteryState::Discharging;
    let level = &config.battery_level;
    if level.less_than(&config.super_critical_low) && discharging {
        return BatteryAlert::Echelon4;
    }
    if level.less_than(&config.lower_critical) && discharging {
        return BatteryAlert::CriticalLow;
    }
    if level.less_than(&config.lower_limit) && discharging {
        return BatteryAlert::Low;
    }
    if config.upper_critical.less_than(level) && !discharging {
        return BatteryAlert::CriticalHigh;
    }
    if config.upper_limit.less_than(level) && !discharging {
        return BatteryAlert::High;
    }
    BatteryAlert::Quiet
}

/// Which alert a reading raises, told from the reading alone: a draining
/// battery shuts down below the super-critical level, else gets the
/// critically low alert below the critical level, else the low alert below
/// the low limit; a battery in any other state gets the critically high
/// alert above the critical level, whatever the high limit is, else the high
/// alert above the high limit; every other reading raises nothing.
pub proof fn lemma_alert_by_reading(config: BatteryConfig)
    ensures
        ({
            let level = config.battery_level;
            let draining = config.battery_state == BatteryState::Discharging;
            &&& (battery_alert(config) == BatteryAlert::Echelon4 <==> draining
                && level.lt(config.super_critical_low))
            &&& (battery_alert(config) == BatteryAlert::CriticalLow <==> draining
                && !level.lt(config.super_critical_low) && level.lt(config.lower_critical))
            &&& (battery_alert(config) == BatteryAlert::Low <==> draining && !level.lt(
                config.super_critical_low,
            ) && !level.lt(config.lower_critical) && level.lt(config.lower_limit))
            &&& (battery_alert(config) == BatteryAlert::CriticalHigh <==> !draining
                && config.upper_critical.lt(level))
            &&& (battery_alert(config) == BatteryAlert::High <==> !draining
                && !config.upper_critical.lt(level) && config.upper_limit.lt(level))
            &&& (battery_alert(config) == BatteryAlert::Quiet <==> (draining ==> !level.lt(
                config.lower_limit,
            ) && !level.lt(config.lower_critical) && !level.lt(config.super_critical_low)) && (
            !draining ==> !config.upper_critical.lt(level) && !config.upper_limit.lt(level)))
        }),
{
}

/// A battery that is not draining, in whichever state, and is above the
/// critical level gets the critically high alert, whatever the high limit
/// is.
pub proof fn lemma_above_critical_is_critical_high(config: BatteryConfig)
    requires
        config.battery_state != BatteryState::Discharging,
        config.upper_critical.lt(config.battery_level),
    ensures
        battery_alert(config) == BatteryAlert::CriticalHigh,
{
}

/// The alert depends on the state only through whether the battery drains:
/// two readings that differ only in a state other than discharging get the
/// same alert.
pub proof fn lemma_only_draining_matters(config: BatteryConfig, other: BatteryState)
    requires
        config.battery_state != BatteryState::Discharging,
        other != BatteryState::Discharging,
    ensures
        battery_alert(config) == battery_alert(BatteryConfig { battery_state: other, ..config }),
{
}

/// A draining battery never raises a high alert, and a battery that is not
/// draining never raises a low one.
pub proof fn lemma_alert_follows_state(config: BatteryConfig)
    ensures
        discharging(config) ==> high_severity(battery_alert(config)) == 0,
        !discharging(config) ==> low_severity(battery_alert(config)) == 0,
{
}

/// A level that is not a number raises no alert.
pub proof fn lemma_nan_level_is_quiet(config: BatteryConfig)
    requires
        !config.battery_level.ordered(),
    ensures
        battery_alert(config) == BatteryAlert::Quiet,
{
}

/// With thresholds in order, a level between the low and the high limit
/// raises no alert.
pub proof fn lemma_healthy_band_is_quiet(config: BatteryConfig)
    requires
        config.super_critical_low.le(config.lower_limit),
        config.lower_critical.le(config.lower_limit),
        config.upper_limit.le(config.upper_critical),
        config.lower_limit.le(config.battery_level),
        config.battery_level.le(config.upper_limit),
    ensures
        battery_alert(config) == BatteryAlert::Quiet,
{
}

/// With the low thresholds in order, a draining battery at a lower level
/// never gets a milder alert than at a higher one.
pub proof fn lemma_lower_level_is_graver(config: BatteryConfig, low: Level, high: Level)
    requires
        discharging(config),
        config.super_critical_low.le(config.lower_critical),
        config.lower_critical.le(config.lower_limit),
        low.le(high),
    ensures
        low_severity(battery_alert(with_level(config, low))) >= low_severity(
            battery_alert(with_level(config, high)),
        ),
{
}

/// With the high thresholds in order, a battery that is not draining never
/// gets a milder alert at a higher level than at a lower one.
pub proof fn lemma_higher_level_is_graver(config: BatteryConfig, low: Level, high: Level)
    requires
        !discharging(config),
        config.upper_limit.le(config.upper_critical),
        low.le(high),
    ensures
        high_severity(battery_alert(with_level(config, high))) >= high_severity(
            battery_alert(with_level(config, low)),
        ),
{
}

} // verus!
