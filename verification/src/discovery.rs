//! Finding the peripheral to talk to: the name test and the decisions of
//! the scan loop. The loop itself, which waits for advertisements, belongs
//! to the caller; it hands each event to [`Discovery::on_event`] and does
//! what the returned step says.

use crate::profile::EquipmentType;
use vstd::prelude::*;
use vstd::string::StringSliceAdditionalSpecFns;
use vstd::utf8::encode_utf8;

verus! {

/// Whether `needle` stands in `haystack` at offset `at`.
pub open spec fn occurs_at(haystack: Seq<u8>, needle: Seq<u8>, at: int) -> bool {
    &&& 0 <= at
    &&& at + needle.len() <= haystack.len()
    &&& haystack.subrange(at, at + needle.len()) == needle
}

/// Whether `needle` stands somewhere in `haystack`.
pub open spec fn contains_bytes(haystack: Seq<u8>, needle: Seq<u8>) -> bool {
    exists|at: int| occurs_at(haystack, needle, at)
}

fn matches_at(haystack: &[u8], needle: &[u8], at: usize) -> (yes: bool)
    requires
        at + needle@.len() <= haystack@.len(),
    ensures
        yes == occurs_at(haystack@, needle@, at as int),
{
    let width: usize = needle.len();
    let size: usize = haystack.len();
    let mut k: usize = 0;
    while k < width
        invariant
            k <= width,
            width == needle@.len(),
            size == haystack@.len(),
            at + width <= size,
            forall|i: int| 0 <= i < k ==> haystack@[at + i] == needle@[i],
        decreases width - k,
    {
        if haystack[at + k] != needle[k] {
            assert(haystack@.subrange(at as int, at + width)[k as int] != needle@[k as int]);
            return false;
        }
        k += 1;
    }
    assert(haystack@.subrange(at as int, at + width) =~= needle@);
    true
}

/// Whether `needle` stands somewhere in `haystack`.
pub fn find_bytes(haystack: &[u8], needle: &[u8]) -> (yes: bool)
    ensures
        yes == contains_bytes(haystack@, needle@),
{
    if needle.len() > haystack.len() {
        return false;
    }
    let last: usize = haystack.len() - needle.len();
    let mut at: usize = 0;
    loop
        invariant
            last == haystack@.len() - needle@.len(),
            at <= last,
            forall|k: int| 0 <= k < at ==> !occurs_at(haystack@, needle@, k),
        decreases last - at,
    {
        if matches_at(haystack, needle, at) {
            return true;
        }
        if at == last {
            return false;
        }
        at += 1;
    }
}

/// Whether an advertised name holds the predicate, letter case counting:
/// the predicate's UTF-8 bytes stand somewhere in the name's.
pub open spec fn name_holds(name: Seq<char>, predicate: Seq<char>) -> bool {
    contains_bytes(encode_utf8(name), encode_utf8(predicate))
}

/// Tests an advertised name against the predicate.
pub fn name_matches(name: &str, predicate: &str) -> (yes: bool)
    ensures
        yes == name_holds(name@, predicate@),
{
    find_bytes(name.as_bytes(), predicate.as_bytes())
}

/// The peripheral that a scan settled on.
#[derive(Debug)]
pub struct DeviceDescriptor {
    /// The caller's handle for the peripheral.
    pub handle: u64,
    /// The name it advertised.
    pub name: String,
}

/// What the merged event stream of the adapters delivers.
#[derive(Debug)]
pub enum DiscoveryEvent {
    /// A peripheral was seen; `name` is its advertised name, if it has one.
    DeviceDiscovered { handle: u64, name: Option<String> },
    /// Any other event.
    Other,
}

/// What the scan loop does next.
#[derive(Clone, Copy, Debug, PartialEq, Eq, Structural)]
pub enum DiscoveryStep {
    /// Wait for the next event and hand it over.
    AwaitEvent,
    /// Stop scanning on every adapter; the outcome is settled.
    Stop,
}

/// How far a scan has come.
#[derive(Debug)]
pub enum DiscoveryStatus {
    Scanning,
    Found(DeviceDescriptor),
    NotFound,
}

/// The decisions of one scan for a peripheral whose name holds a
/// predicate.
#[derive(Debug)]
pub struct Discovery {
    predicate: String,
    status: DiscoveryStatus,
}

impl DiscoveryEvent {
    /// The peripheral that this event shows, where it shows one with a
    /// name.
    pub open spec fn device(&self) -> DeviceDescriptor {
        match self {
            DiscoveryEvent::DeviceDiscovered { handle, name: Some(name) } => DeviceDescriptor {
                handle: *handle,
                name: *name,
            },
            _ => arbitrary(),
        }
    }

    /// Whether this event shows a peripheral whose name holds `predicate`.
    pub open spec fn shows_match(&self, predicate: Seq<char>) -> bool {
        match self {
            DiscoveryEvent::DeviceDiscovered { handle, name: Some(name) } => name_holds(
                name@,
                predicate,
            ),
            _ => false,
        }
    }
}

impl Discovery {
    /// The predicate that names are tested against.
    pub closed spec fn predicate(&self) -> Seq<char> {
        self.predicate@
    }

    /// How far the scan has come.
    pub closed spec fn status(&self) -> DiscoveryStatus {
        self.status
    }

    /// A scan that has not looked at any event yet.
    pub fn new(predicate: &str) -> (scan: Discovery)
        ensures
            scan.predicate() == predicate@,
            scan.status() is Scanning,
    {
        Discovery { predicate: predicate.to_owned(), status: DiscoveryStatus::Scanning }
    }

    /// Decides, before any wait, whether the scan goes on. With the
    /// cancellation token fired a running scan ends as not found, whatever
    /// events are pending; a settled scan stays as it is.
    pub fn poll(&mut self, cancelled: bool) -> (step: DiscoveryStep)
        ensures
            final(self).predicate() == old(self).predicate(),
            old(self).status() is Scanning && cancelled ==> final(self).status() is NotFound
                && step == DiscoveryStep::Stop,
            old(self).status() is Scanning && !cancelled ==> final(self).status() is Scanning
                && step == DiscoveryStep::AwaitEvent,
            !(old(self).status() is Scanning) ==> final(self).status() == old(self).status()
                && step == DiscoveryStep::Stop,
    {
        match &self.status {
            DiscoveryStatus::Scanning => {
                if cancelled {
                    self.status = DiscoveryStatus::NotFound;
                    DiscoveryStep::Stop
                } else {
                    DiscoveryStep::AwaitEvent
                }
            },
            _ => DiscoveryStep::Stop,
        }
    }

    /// Takes one event of the merged stream. The cancellation token is
    /// looked at first: once fired, the scan ends as not found and the event
    /// is not examined. Otherwise the first peripheral whose name holds the
    /// predicate ends the scan as found.
    pub fn on_event(&mut self, event: &DiscoveryEvent, cancelled: bool) -> (step: DiscoveryStep)
        ensures
            final(self).predicate() == old(self).predicate(),
            !(old(self).status() is Scanning) ==> final(self).status() == old(self).status()
                && step == DiscoveryStep::Stop,
            old(self).status() is Scanning && cancelled ==> final(self).status() is NotFound
                && step == DiscoveryStep::Stop,
            old(self).status() is Scanning && !cancelled && event.shows_match(
                old(self).predicate(),
            ) ==> step == DiscoveryStep::Stop && final(self).status() == DiscoveryStatus::Found(
                event.device(),
            ),
            old(self).status() is Scanning && !cancelled && !event.shows_match(
                old(self).predicate(),
            ) ==> final(self).status() is Scanning && step == DiscoveryStep::AwaitEvent,
    {
        match &self.status {
            DiscoveryStatus::Scanning => {},
            _ => {
                return DiscoveryStep::Stop;
            },
        }
        if cancelled {
            self.status = DiscoveryStatus::NotFound;
            return DiscoveryStep::Stop;
        }
        match event {
            DiscoveryEvent::DeviceDiscovered { handle, name: Some(name) } => {
                if name_matches(name.as_str(), self.predicate.as_str()) {
                    self.status = DiscoveryStatus::Found(
                        DeviceDescriptor { handle: *handle, name: name.clone() },
                    );
                    DiscoveryStep::Stop
                } else {
                    DiscoveryStep::AwaitEvent
                }
            },
            _ => DiscoveryStep::AwaitEvent,
        }
    }

    /// The event stream has ended: a running scan ends as not found.
    pub fn stream_ended(&mut self)
        ensures
            final(self).predicate() == old(self).predicate(),
            old(self).status() is Scanning ==> final(self).status() is NotFound,
            !(old(self).status() is Scanning) ==> final(self).status() == old(self).status(),
    {
        match &self.status {
            DiscoveryStatus::Scanning => {
                self.status = DiscoveryStatus::NotFound;
            },
            _ => {},
        }
    }

    /// The peripheral that was found; none while the scan runs and none
    /// when it ended without a match.
    pub fn found(&self) -> (device: Option<&DeviceDescriptor>)
        ensures
            match self.status() {
                DiscoveryStatus::Found(d) => device == Some(&d),
                _ => device is None,
            },
    {
        match &self.status {
            DiscoveryStatus::Found(device) => Some(device),
            _ => None,
        }
    }

    /// Gives up the scan for the peripheral that was found, if any.
    pub fn into_found(self) -> (device: Option<DeviceDescriptor>)
        ensures
            match self.status() {
                DiscoveryStatus::Found(d) => device == Some(d),
                _ => device is None,
            },
    {
        match self.status {
            DiscoveryStatus::Found(device) => Some(device),
            _ => None,
        }
    }

    /// Whether the outcome is settled.
    pub fn is_finished(&self) -> (yes: bool)
        ensures
            yes == !(self.status() is Scanning),
    {
        match &self.status {
            DiscoveryStatus::Scanning => false,
            _ => true,
        }
    }
}

/// The place of the first event that shows a peripheral whose name holds
/// `predicate`; none where no event does.
pub open spec fn first_match(events: Seq<DiscoveryEvent>, predicate: Seq<char>) -> Option<int>
    decreases events.len(),
{
    if events.len() == 0 {
        None
    } else {
        match first_match(events.drop_last(), predicate) {
            Some(at) => Some(at),
            None => if events.last().shows_match(predicate) {
                Some(events.len() - 1)
            } else {
                None
            },
        }
    }
}

/// What `first_match` finds is a match and nothing before it is; where it
/// finds nothing, there is no match.
pub proof fn lemma_first_match(events: Seq<DiscoveryEvent>, predicate: Seq<char>)
    ensures
        match first_match(events, predicate) {
            Some(at) => {
                &&& 0 <= at < events.len()
                &&& events[at].shows_match(predicate)
                &&& forall|i: int| 0 <= i < at ==> !(#[trigger] events[i]).shows_match(predicate)
            },
            None => forall|i: int|
                0 <= i < events.len() ==> !(#[trigger] events[i]).shows_match(predicate),
        },
    decreases events.len(),
{
    if events.len() > 0 {
        let earlier = events.drop_last();
        lemma_first_match(earlier, predicate);
        assert forall|i: int| 0 <= i < earlier.len() implies earlier[i] == events[i] by {}
    }
}

/// The events that a scan gets to see when the cancellation token fires
/// after `cancel_after` of them: the first `cancel_after`, or all where
/// there are fewer.
pub open spec fn events_before_cancel(events: Seq<DiscoveryEvent>, cancel_after: int) -> Seq<
    DiscoveryEvent,
> {
    if cancel_after < events.len() {
        events.take(cancel_after)
    } else {
        events
    }
}

/// Runs a scan for equipment of the given kind over a recorded event
/// stream. The cancellation token fires once `cancel_after` events were
/// taken; with 0 it has fired before the scan begins.
///
/// The answer is the first peripheral, among the events before the token
/// fires, whose name holds the predicate of the kind, and the number of
/// events that were taken from the stream: those up to the match, or all
/// that came before the token fired. A scan whose token has fired takes no
/// event and finds nothing, whatever is pending.
pub fn get_peripheral(
    equipment_type: EquipmentType,
    events: &Vec<DiscoveryEvent>,
    cancel_after: usize,
) -> (found: (Option<DeviceDescriptor>, usize))
    ensures
        match first_match(
            events_before_cancel(events@, cancel_after as int),
            equipment_type.spec_name_predicate(),
        ) {
            Some(at) => found.0 == Some(events@[at].device()) && found.1 == at + 1,
            None => found.0 is None && found.1 == events_before_cancel(
                events@,
                cancel_after as int,
            ).len(),
        },
        cancel_after == 0 ==> found.0 is None && found.1 == 0,
{
    let ghost predicate = equipment_type.spec_name_predicate();
    let ghost visible = events_before_cancel(events@, cancel_after as int);
    let mut scan = Discovery::new(equipment_type.name_predicate());
    let mut taken: usize = 0;
    loop
        invariant
            taken <= visible.len(),
            visible == events_before_cancel(events@, cancel_after as int),
            predicate == equipment_type.spec_name_predicate(),
            scan.predicate() == predicate,
            scan.status() is Scanning,
            first_match(visible.take(taken as int), predicate) is None,
        decreases visible.len() - taken,
    {
        match scan.poll(taken >= cancel_after) {
            DiscoveryStep::Stop => {
                assert(taken == visible.len());
                assert(visible.take(taken as int) =~= visible);
                return (scan.into_found(), taken);
            },
            DiscoveryStep::AwaitEvent => {},
        }
        if taken >= events.len() {
            scan.stream_ended();
            assert(taken == visible.len());
            assert(visible.take(taken as int) =~= visible);
            return (scan.into_found(), taken);
        }
        let ghost seen = visible.take(taken as int);
        let ghost next = visible.take(taken + 1);
        assert(next.drop_last() =~= seen);
        assert(next.last() == events@[taken as int]);
        let step = scan.on_event(&events[taken], false);
        taken += 1;
        match step {
            DiscoveryStep::Stop => {
                proof {
                    assert(first_match(next, predicate) == Some(taken - 1));
                    lemma_first_match_extends(visible, predicate, taken as int);
                }
                return (scan.into_found(), taken);
            },
            DiscoveryStep::AwaitEvent => {
                assert(first_match(next, predicate) is None);
            },
        }
    }
}

/// A match among the first `count` events is the first match of the whole
/// stream.
proof fn lemma_first_match_extends(events: Seq<DiscoveryEvent>, predicate: Seq<char>, count: int)
    requires
        0 <= count <= events.len(),
        first_match(events.take(count), predicate) is Some,
    ensures
        first_match(events, predicate) == first_match(events.take(count), predicate),
    decreases events.len() - count,
{
    if count < events.len() {
        let longer = events.take(count + 1);
        assert(longer.drop_last() == events.take(count));
        lemma_first_match_extends(events, predicate, count + 1);
    } else {
        assert(events.take(count) == events);
    }
}

} // verus!
