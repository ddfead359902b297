//! Watching for disks that went missing.
//!
//! Each disk carries a count of the passes in a row on which it was missing.
//! A pass goes through the disks in order: a disk that is there has its count
//! cleared; a missing disk has its count raised and is reported with a
//! notification while the count is at most `max_directives`, with the loud
//! alarms while it is above that and at most `upper_max_directives`, and
//! once the count passes `upper_max_directives` the pass stops there and the
//! disks after it are left as they were.

use vstd::prelude::*;
use vstd::string::*;

verus! {

/// A disk to watch: its alias, the path where it should be, and how many
/// passes in a row it has been missing.
#[allow(non_snake_case)]
#[derive(Clone)]
pub struct AnnaDisk {
    pub alias: String,
    pub disk_path: String,
    pub DISK_DIRECTIVES: u64,
}

/// How long a disk may stay missing before the alarms grow louder or stop.
#[derive(Clone, Copy, Debug)]
pub struct DiskMonitoringConfig {
    pub max_directives: u64,
    pub upper_max_directives: u64,
    pub sleep_time: u64,
}

/// What a pass does about one disk.
#[derive(Clone, Copy, Debug, PartialEq, Eq, Structural)]
pub enum DiskEvent {
    /// The disk is there; its count was cleared.
    Cleared,
    /// The disk is missing: a notification.
    Notice,
    /// The disk has been missing too long: the alert and the sound.
    Escalation,
    /// The disk has been missing longer than the upper limit: the pass stops.
    GiveUp,
}

/// The count of a disk after one pass reaches it.
pub open spec fn next_directives(count: u64, present: bool) -> int {
    if present {
        0
    } else {
        count + 1
    }
}

/// What one pass does about a disk with this count.
pub open spec fn disk_event(count: u64, present: bool, config: DiskMonitoringConfig) -> DiskEvent {
    let next = next_directives(count, present);
    if present {
        DiskEvent::Cleared
    } else if next > config.upper_max_directives {
        DiskEvent::GiveUp
    } else if next > config.max_directives {
        DiskEvent::Escalation
    } else {
        DiskEvent::Notice
    }
}

/// The disk with this count gives up the pass.
pub open spec fn gives_up(count: u64, present: bool, config: DiskMonitoringConfig) -> bool {
    disk_event(count, present, config) == DiskEvent::GiveUp
}

/// No disk that a pass reaches has a count that cannot be raised: every
/// missing disk at the largest count comes after a disk that gives up.
#[verifier::opaque]
pub open spec fn counts_fit(
    disks: Seq<AnnaDisk>,
    present: Seq<bool>,
    config: DiskMonitoringConfig,
) -> bool {
    forall|i: int|
        0 <= i < disks.len() && !present[i] && #[trigger] disks[i].DISK_DIRECTIVES == u64::MAX
            ==> exists|j: int| 0 <= j < i && gives_up(disks[j].DISK_DIRECTIVES, present[j], config)
}

/// What one pass does: `after` and `events` are what a pass over the disks
/// `before`, with these presences, leaves and reports.  The events follow
/// the disks in order up to and including the first one that gives up, or
/// cover all of them; the disks reached have their counts moved on, the
/// others stay as they were, and no alias or path changes.
pub open spec fn disk_pass(
    before: Seq<AnnaDisk>,
    present: Seq<bool>,
    config: DiskMonitoringConfig,
    after: Seq<AnnaDisk>,
    events: Seq<DiskEvent>,
) -> bool {
    &&& after.len() == before.len()
    &&& events.len() <= before.len()
    &&& forall|i: int|
        0 <= i < events.len() ==> #[trigger] events[i] == disk_event(
            before[i].DISK_DIRECTIVES,
            present[i],
            config,
        )
    &&& forall|i: int| 0 <= i < events.len() - 1 ==> #[trigger] events[i] != DiskEvent::GiveUp
    &&& events.len() < before.len() ==> events.len() > 0 && events[events.len() - 1]
        == DiskEvent::GiveUp
    &&& forall|i: int|
        0 <= i < events.len() ==> #[trigger] after[i].DISK_DIRECTIVES == next_directives(
            before[i].DISK_DIRECTIVES,
            present[i],
        )
    &&& forall|i: int| events.len() <= i < before.len() ==> #[trigger] after[i] == before[i]
    &&& forall|i: int|
        0 <= i < before.len() ==> #[trigger] after[i].alias == before[i].alias
            && after[i].disk_path == before[i].disk_path
}

/// The event of the pass number `pass` of a missing streak that started
/// from a cleared disk.
pub open spec fn streak_event(pass: int, config: DiskMonitoringConfig) -> DiskEvent {
    if pass > config.upper_max_directives {
        DiskEvent::GiveUp
    } else if pass > config.max_directives {
        DiskEvent::Escalation
    } else {
        DiskEvent::Notice
    }
}

/// The count of a disk that was cleared and then found missing on `passes`
/// passes in a row.
pub open spec fn missing_streak_count(passes: nat) -> int
    decreases passes,
{
    if passes == 0 {
        0
    } else {
        next_directives(missing_streak_count((passes - 1) as nat) as u64, false)
    }
}

/// The text of the notification about a missing disk.
pub open spec fn missing_disk_text(alias: Seq<char>) -> Seq<char> {
    "The Disk ["@ + alias + "] is missing from the system"@
}

/// What `{:?}` writes for the path spelled by this string.
pub uninterp spec fn path_debug_text(s: Seq<char>) -> Seq<char>;

/// Calls `<Path as Debug>::fmt` through `format!`, on the path that the
/// string spells.  Its result is named `path_debug_text` of the string;
/// besides, the path comes out between double quotes, as the documentation
/// of `Debug` for paths shows.  Which characters are escaped, and how, is
/// left unsaid.
#[verifier::external_body]
fn path_debug(s: &str) -> (text: String)
    ensures
        text@ == path_debug_text(s@),
        text@.len() >= 2,
        text@[0] == '"',
        text@[text@.len() - 1] == '"',
{
    format!("{:?}", std::path::Path::new(s))
}

/// How a disk is shown: its alias, then its path in quotes between `::<`
/// and `>`.
pub open spec fn disk_text(disk: AnnaDisk) -> Seq<char> {
    disk.alias@ + "::<"@ + path_debug_text(disk.disk_path@) + ">"@
}

impl AnnaDisk {
    /// How the disk is shown in logs: `alias::<"path">`.
    pub fn describe(&self) -> (text: String)
        ensures
            text@ == disk_text(*self),
    {
        let mut text = self.alias.clone();
        text.append("::<");
        let quoted = path_debug(self.disk_path.as_str());
        text.append(quoted.as_str());
        text.append(">");
        proof {
            reveal_strlit("::<");
            reveal_strlit(">");
        }
        text
    }

    /// A disk with this alias, found at `disk_path`, not missing so far.
    pub fn new(alias: String, disk_path: String) -> (disk: AnnaDisk)
        ensures
            disk.alias@ == alias@,
            disk.disk_path@ == disk_path@,
            disk.DISK_DIRECTIVES == 0,
    {
        AnnaDisk { alias: alias, disk_path: disk_path, DISK_DIRECTIVES: 0 }
    }
}

impl DiskMonitoringConfig {
    /// The defaults: the loud alarms from the first missing pass on, none
    /// after thirty passes in a row, and a look every three seconds.
    pub fn new() -> (config: DiskMonitoringConfig)
        ensures
            config.max_directives == 0,
            config.upper_max_directives == 30,
            config.sleep_time == 3,
    {
        DiskMonitoringConfig { max_directives: 0, upper_max_directives: 30, sleep_time: 3 }
    }
}

/// The text of the notification about a missing disk with this alias.
pub fn missing_disk_message(alias: &str) -> (msg: String)
    ensures
        msg@ == missing_disk_text(alias@),
{
    let mut msg = String::from_str("The Disk [");
    msg.append(alias);
    msg.append("] is missing from the system");
    proof {
        reveal_strlit("The Disk [");
        reveal_strlit("] is missing from the system");
    }
    msg
}

/// One step of a pass: updates the count of the disk and says what to do.
pub fn evaluate_disk(disk: &mut AnnaDisk, present: bool, config: &DiskMonitoringConfig) -> (event:
    DiskEvent)
    requires
        present || old(disk).DISK_DIRECTIVES < u64::MAX,
    ensures
        final(disk).alias == old(disk).alias,
        final(disk).disk_path == old(disk).disk_path,
        final(disk).DISK_DIRECTIVES == next_directives(old(disk).DISK_DIRECTIVES, present),
        event == disk_event(old(disk).DISK_DIRECTIVES, present, *config),
{
    if !present {
        disk.DISK_DIRECTIVES = disk.DISK_DIRECTIVES + 1;
        if disk.DISK_DIRECTIVES > config.upper_max_directives {
            DiskEvent::GiveUp
        } else if disk.DISK_DIRECTIVES > config.max_directives {
            DiskEvent::Escalation
        } else {
            DiskEvent::Notice
        }
    } else {
        disk.DISK_DIRECTIVES = 0;
        DiskEvent::Cleared
    }
}

/// One pass over the disks, given which of them are there.
///
/// The events come back in the order of the disks.  The pass reaches the
/// disks up to the first one that gives up, or all of them; those it
/// reaches have their counts updated, the others are left as they were.
pub fn check_disks(
    disks: &mut Vec<AnnaDisk>,
    present: &Vec<bool>,
    config: &DiskMonitoringConfig,
) -> (events: Vec<DiskEvent>)
    requires
        present.len() == old(disks).len(),
        counts_fit(old(disks)@, present@, *config),
    ensures
        final(disks).len() == old(disks).len(),
        events.len() <= old(disks).len(),
        forall|i: int|
            0 <= i < events.len() ==> #[trigger] events[i] == disk_event(
                old(disks)[i].DISK_DIRECTIVES,
                present[i],
                *config,
            ),
        forall|i: int| 0 <= i < events.len() - 1 ==> #[trigger] events[i] != DiskEvent::GiveUp,
        events.len() < old(disks).len() ==> events.len() > 0 && events[events.len() - 1]
            == DiskEvent::GiveUp,
        (forall|i: int|
            0 <= i < old(disks).len() ==> !#[trigger] gives_up(
                old(disks)[i].DISK_DIRECTIVES,
                present[i],
                *config,
            )) ==> events.len() == old(disks).len(),
        forall|i: int|
            0 <= i < events.len() ==> #[trigger] final(disks)[i].DISK_DIRECTIVES
                == next_directives(old(disks)[i].DISK_DIRECTIVES, present[i]),
        forall|i: int|
            events.len() <= i < old(disks).len() ==> #[trigger] final(disks)[i]
                == old(disks)[i],
        forall|i: int|
            0 <= i < old(disks).len() ==> #[trigger] final(disks)[i].alias == old(disks)[i].alias
                && final(disks)[i].disk_path == old(disks)[i].disk_path,
        disk_pass(old(disks)@, present@, *config, final(disks)@, events@),
{
    let ghost start = disks@;
    let n = disks.len();
    let mut events: Vec<DiskEvent> = Vec::new();
    let mut i: usize = 0;
    let mut stopped = false;
    while i < n && !stopped
        invariant
            n == start.len(),
            n == present.len(),
            disks.len() == n,
            i <= n,
            events.len() == i,
            stopped ==> i > 0 && events[i - 1] == DiskEvent::GiveUp,
            forall|j: int|
                0 <= j < i && (j < i - 1 || !stopped) ==> #[trigger] events[j]
                    != DiskEvent::GiveUp,
            counts_fit(start, present@, *config),
            forall|j: int|
                0 <= j < i ==> #[trigger] events[j] == disk_event(
                    start[j].DISK_DIRECTIVES,
                    present[j],
                    *config,
                ),
            forall|j: int|
                0 <= j < i ==> #[trigger] disks[j].DISK_DIRECTIVES == next_directives(
                    start[j].DISK_DIRECTIVES,
                    present[j],
                ),
            forall|j: int| i <= j < n ==> #[trigger] disks[j] == start[j],
            forall|j: int|
                0 <= j < n ==> #[trigger] disks[j].alias == start[j].alias && disks[j].disk_path
                    == start[j].disk_path,
        decreases n - i,
    {
        proof {
            reveal(counts_fit);
            if !present[i as int] && start[i as int].DISK_DIRECTIVES == u64::MAX {
                let k = choose|k: int|
                    0 <= k < i && gives_up(start[k].DISK_DIRECTIVES, present[k], *config);
                assert(events[k] == disk_event(start[k].DISK_DIRECTIVES, present[k], *config));
            }
        }
        let event = evaluate_disk(&mut disks[i], present[i], config);
        events.push(event);
        i = i + 1;
        stopped = event == DiskEvent::GiveUp;
    }
    proof {
        if events.len() < n {
            let last = events.len() - 1;
            assert(gives_up(start[last].DISK_DIRECTIVES, present[last], *config));
        }
    }
    events
}

/// Whether a pass over these disks can raise every count it has to: tells
/// exactly whether `check_disks` may be called.
pub fn counts_can_rise(
    disks: &Vec<AnnaDisk>,
    present: &Vec<bool>,
    config: &DiskMonitoringConfig,
) -> (fit: bool)
    requires
        present.len() == disks.len(),
    ensures
        fit == counts_fit(disks@, present@, *config),
{
    let n = disks.len();
    let mut i: usize = 0;
    while i < n
        invariant
            n == disks.len(),
            n == present.len(),
            i <= n,
            forall|j: int|
                0 <= j < i ==> !gives_up(#[trigger] disks@[j].DISK_DIRECTIVES, present[j], *config),
            forall|j: int|
                0 <= j < i && !present[j] ==> #[trigger] disks@[j].DISK_DIRECTIVES < u64::MAX,
        decreases n - i,
    {
        let count = disks[i].DISK_DIRECTIVES;
        if !present[i] {
            if count == u64::MAX {
                proof {
                    reveal(counts_fit);
                    if counts_fit(disks@, present@, *config) {
                        let k = choose|k: int|
                            0 <= k < i && gives_up(disks@[k].DISK_DIRECTIVES, present[k], *config);
                        assert(!gives_up(disks@[k].DISK_DIRECTIVES, present[k], *config));
                    }
                }
                return false;
            }
            if count + 1 > config.upper_max_directives {
                proof {
                    reveal(counts_fit);
                    let ii = i as int;
                    assert(gives_up(disks@[ii].DISK_DIRECTIVES, present[ii], *config));
                    assert forall|j: int|
                        0 <= j < disks@.len() && !present[j] && #[trigger] disks@[j].DISK_DIRECTIVES
                            == u64::MAX implies exists|k: int|
                        0 <= k < j && gives_up(disks@[k].DISK_DIRECTIVES, present[k], *config) by {
                        assert(j > ii);
                    }
                }
                return true;
            }
        }
        i = i + 1;
    }
    proof {
        reveal(counts_fit);
    }
    true
}

/// A disk that was cleared and then found missing on `passes` passes in a
/// row has a count of `passes`, and on the last of them it is reported with
/// a notification while `passes` is at most `max_directives`, with the loud
/// alarms while it is above that and at most `upper_max_directives`, and it
/// stops the pass after that.
pub proof fn lemma_missing_streak(passes: nat, config: DiskMonitoringConfig)
    requires
        1 <= passes <= u64::MAX,
    ensures
        missing_streak_count(passes) == passes,
        disk_event(missing_streak_count((passes - 1) as nat) as u64, false, config) == (if passes
            > config.upper_max_directives {
            DiskEvent::GiveUp
        } else if passes > config.max_directives {
            DiskEvent::Escalation
        } else {
            DiskEvent::Notice
        }),
    decreases passes,
{
    if passes > 1 {
        lemma_missing_streak((passes - 1) as nat, config);
    }
}

/// Over successive passes with the same settings, a disk that is first in
/// the list, starts cleared and stays missing has, after `j` passes, a
/// count of `j`; the pass number `j` (counting from one) reports it with a
/// notification while `j` is at most `max_directives` and
/// `upper_max_directives`, with the loud alarms while `j` is above
/// `max_directives` and at most `upper_max_directives`, and with nothing
/// but the end of the pass once `j` is above `upper_max_directives`; so it
/// is alerted about on exactly the passes up to `upper_max_directives`.
pub proof fn lemma_missing_over_passes(
    states: Seq<Seq<AnnaDisk>>,
    presents: Seq<Seq<bool>>,
    events: Seq<Seq<DiskEvent>>,
    config: DiskMonitoringConfig,
)
    requires
        states.len() == presents.len() + 1,
        events.len() == presents.len(),
        states[0].len() > 0,
        states[0][0].DISK_DIRECTIVES == 0,
        forall|j: int|
            0 <= j < presents.len() ==> #[trigger] disk_pass(
                states[j],
                presents[j],
                config,
                states[j + 1],
                events[j],
            ) && presents[j].len() == states[j].len() && !presents[j][0],
    ensures
        forall|j: int| 0 <= j < states.len() ==> #[trigger] states[j].len() == states[0].len(),
        forall|j: int| 0 <= j < states.len() ==> #[trigger] states[j][0].DISK_DIRECTIVES == j,
        forall|j: int|
            0 <= j < events.len() ==> #[trigger] events[j].len() > 0 && events[j][0]
                == streak_event(j + 1, config),
        forall|j: int|
            0 <= j < events.len() ==> (#[trigger] events[j][0] != DiskEvent::GiveUp <==> j + 1
                <= config.upper_max_directives),
    decreases presents.len(),
{
    let n = presents.len();
    if n > 0 {
        let k = n - 1;
        let s2 = states.take(n as int);
        let p2 = presents.take(k);
        let e2 = events.take(k);
        assert forall|j: int| 0 <= j < k implies #[trigger] disk_pass(
            s2[j],
            p2[j],
            config,
            s2[j + 1],
            e2[j],
        ) && p2[j].len() == s2[j].len() && !p2[j][0] by {
            assert(disk_pass(states[j], presents[j], config, states[j + 1], events[j]));
            assert(s2[j] == states[j]);
            assert(s2[j + 1] == states[j + 1]);
        }
        lemma_missing_over_passes(s2, p2, e2, config);
        assert(s2[k] == states[k]);
        assert(disk_pass(states[k], presents[k], config, states[k + 1], events[k]));
        assert(states[k].len() == states[0].len());
        assert(states[k][0].DISK_DIRECTIVES == k);
        assert(events[k].len() > 0);
        assert(events[k][0] == disk_event(states[k][0].DISK_DIRECTIVES, presents[k][0], config));
        assert(states[n as int][0].DISK_DIRECTIVES == n);
        assert forall|j: int| 0 <= j < states.len() implies #[trigger] states[j].len()
            == states[0].len() by {
            if j < n {
                assert(s2[j] == states[j]);
            }
        }
        assert forall|j: int| 0 <= j < states.len() implies #[trigger] states[j][0].DISK_DIRECTIVES
            == j by {
            if j < n {
                assert(s2[j] == states[j]);
                assert(s2[j][0].DISK_DIRECTIVES == j);
            }
        }
        assert forall|j: int| 0 <= j < events.len() implies #[trigger] events[j].len() > 0
            && events[j][0] == streak_event(j + 1, config) by {
            if j < k {
                assert(e2[j] == events[j]);
            }
        }
        assert forall|j: int| 0 <= j < events.len() implies (#[trigger] events[j][0]
            != DiskEvent::GiveUp <==> j + 1 <= config.upper_max_directives) by {
            if j < k {
                assert(e2[j] == events[j]);
            }
            assert(events[j][0] == streak_event(j + 1, config));
        }
    }
}

/// One step for a missing disk raises its count by one and reports it by
/// the raised count: the end of the pass above `upper_max_directives`, the
/// loud alarms above `max_directives` up to `upper_max_directives`, a
/// notification otherwise.
pub proof fn lemma_missing_step(count: u64, config: DiskMonitoringConfig)
    ensures
        next_directives(count, false) == count + 1,
        disk_event(count, false, config) == DiskEvent::GiveUp <==> count + 1
            > config.upper_max_directives,
        disk_event(count, false, config) == DiskEvent::Escalation <==> config.max_directives
            < count + 1 <= config.upper_max_directives,
        disk_event(count, false, config) == DiskEvent::Notice <==> count + 1
            <= config.max_directives && count + 1 <= config.upper_max_directives,
        disk_event(count, false, config) != DiskEvent::Cleared,
{
}

/// The notification about a missing disk holds its whole alias, unchanged,
/// between the same opening and closing words for every alias.
pub proof fn lemma_missing_text_holds_alias(alias: Seq<char>, other: Seq<char>)
    ensures
        missing_disk_text(alias).len() == alias.len() + 38,
        missing_disk_text(alias).subrange(10, 10 + alias.len() as int) == alias,
        missing_disk_text(alias).subrange(0, 10) == missing_disk_text(other).subrange(0, 10),
        missing_disk_text(alias).subrange(10 + alias.len() as int, alias.len() as int + 38)
            == missing_disk_text(other).subrange(10 + other.len() as int, other.len() as int + 38),
{
    reveal_strlit("The Disk [");
    reveal_strlit("] is missing from the system");
    assert(missing_disk_text(alias).subrange(10, 10 + alias.len() as int) =~= alias);
    assert(missing_disk_text(alias).subrange(0, 10) =~= "The Disk ["@);
    assert(missing_disk_text(other).subrange(0, 10) =~= "The Disk ["@);
    assert(missing_disk_text(alias).subrange(10 + alias.len() as int, alias.len() as int + 38)
        =~= "] is missing from the system"@);
    assert(missing_disk_text(other).subrange(10 + other.len() as int, other.len() as int + 38)
        =~= "] is missing from the system"@);
}

/// How a disk is shown begins with its whole alias.
pub proof fn lemma_disk_text_begins_with_alias(disk: AnnaDisk)
    ensures
        disk_text(disk).subrange(0, disk.alias@.len() as int) == disk.alias@,
{
    assert(disk_text(disk).subrange(0, disk.alias@.len() as int) =~= disk.alias@);
}

/// A disk found in its place is cleared, whatever its count was.
pub proof fn lemma_present_disk_clears(count: u64, config: DiskMonitoringConfig)
    ensures
        next_directives(count, true) == 0,
        disk_event(count, true, config) == DiskEvent::Cleared,
{
}

} // verus!
