//! Watching network interfaces.
//!
//! A pass goes through the interfaces in order.  An interface that is up
//! needs nothing, one that is down is reported, and one that cannot be found
//! is reported as erroneous and ends the pass: the interfaces after it are
//! not looked at.

use vstd::prelude::*;
use vstd::string::*;

verus! {

/// What a pass does about one interface.
#[derive(Clone, Copy, Debug, PartialEq, Eq, Structural)]
pub enum InterfaceEvent {
    /// It is up: nothing to do.
    Running,
    /// It is down: a notification.
    Stopped,
    /// It does not exist: an error, and the pass ends.
    Missing,
}

/// The event for an interface found up (`Some(true)`), down
/// (`Some(false)`) or not at all (`None`).
pub open spec fn interface_event(status: Option<bool>) -> InterfaceEvent {
    match status {
        None => InterfaceEvent::Missing,
        Some(true) => InterfaceEvent::Running,
        Some(false) => InterfaceEvent::Stopped,
    }
}

/// The text of the notification about an interface that is down.
pub open spec fn interface_down_text(name: Seq<char>) -> Seq<char> {
    "Network Interface ["@ + name + "] is not running"@
}

/// The text of the notification about an interface that is down.
pub fn interface_down_message(name: &str) -> (msg: String)
    ensures
        msg@ == interface_down_text(name@),
{
    let mut msg = String::from_str("Network Interface [");
    msg.append(name);
    msg.append("] is not running");
    proof {
        reveal_strlit("Network Interface [");
        reveal_strlit("] is not running");
    }
    msg
}

/// One pass over the interfaces, given what was found of each.
///
/// The events come back in the order of the interfaces, up to and including
/// the first one that is missing, or for all of them.
pub fn check_interfaces(statuses: &Vec<Option<bool>>) -> (events: Vec<InterfaceEvent>)
    ensures
        events.len() <= statuses.len(),
        forall|i: int| 0 <= i < events.len() ==> #[trigger] events[i] == interface_event(statuses[i]),
        forall|i: int| 0 <= i < events.len() - 1 ==> #[trigger] statuses[i] is Some,
        events.len() < statuses.len() ==> events.len() > 0 && statuses[events.len() - 1] is None,
        (forall|i: int| 0 <= i < statuses.len() ==> #[trigger] statuses[i] is Some) ==> events.len()
            == statuses.len(),
{
    let n = statuses.len();
    let mut events: Vec<InterfaceEvent> = Vec::new();
    let mut i: usize = 0;
    let mut stopped = false;
    while i < n && !stopped
        invariant
            n == statuses.len(),
            i <= n,
            events.len() == i,
            stopped ==> i > 0 && statuses[i - 1] is None,
            forall|j: int| 0 <= j < i && (j < i - 1 || !stopped) ==> #[trigger] statuses[j] is Some,
            forall|j: int| 0 <= j < i ==> #[trigger] events[j] == interface_event(statuses[j]),
        decreases n - i,
    {
        let event = match statuses[i] {
            None => InterfaceEvent::Missing,
            Some(true) => InterfaceEvent::Running,
            Some(false) => InterfaceEvent::Stopped,
        };
        events.push(event);
        stopped = statuses[i].is_none();
        i = i + 1;
    }
    events
}

/// The notification about an interface that is down holds its whole name,
/// unchanged, between the same opening and closing words for every name.
pub proof fn lemma_down_text_holds_name(name: Seq<char>, other: Seq<char>)
    ensures
        interface_down_text(name).len() == name.len() + 35,
        interface_down_text(name).subrange(19, 19 + name.len() as int) == name,
        interface_down_text(name).subrange(0, 19) == interface_down_text(other).subrange(0, 19),
        interface_down_text(name).subrange(19 + name.len() as int, name.len() as int + 35)
            == interface_down_text(other).subrange(19 + other.len() as int, other.len() as int + 35),
{
    reveal_strlit("Network Interface [");
    reveal_strlit("] is not running");
    assert(interface_down_text(name).subrange(19, 19 + name.len() as int) =~= name);
    assert(interface_down_text(name).subrange(0, 19) =~= "Network Interface ["@);
    assert(interface_down_text(other).subrange(0, 19) =~= "Network Interface ["@);
    assert(interface_down_text(name).subrange(19 + name.len() as int, name.len() as int + 35)
        =~= "] is not running"@);
    assert(interface_down_text(other).subrange(19 + other.len() as int, other.len() as int + 35)
        =~= "] is not running"@);
}

/// An interface found up needs nothing, one found down is reported as
/// stopped, and one not found is reported as missing.
pub proof fn lemma_event_by_status(status: Option<bool>)
    ensures
        interface_event(status) == InterfaceEvent::Running <==> status == Some(true),
        interface_event(status) == InterfaceEvent::Stopped <==> status == Some(false),
        interface_event(status) == InterfaceEvent::Missing <==> status is None,
{
}

} // verus!
