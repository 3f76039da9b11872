use vstd::prelude::*;

verus! {

/// The debounce scheduler's shared guard: whether a commit timer is armed.
/// At most one timer is armed at any instant; the guard is flipped exactly
/// when a timer is scheduled or fires.
pub struct Debouncer {
    pub armed: bool,
}

impl Debouncer {
    /// A fresh scheduler with no timer armed.
    pub fn new() -> (d: Debouncer)
        ensures
            !d.armed,
    {
        Debouncer { armed: false }
    }

    /// One change notification arrived. When no timer is armed, the guard
    /// becomes armed and the caller must schedule the deferred commit for
    /// the quiet delay from now; an already armed timer is left exactly as
    /// it is, neither reset nor extended.
    pub fn on_event(&mut self) -> (arm: bool)
        ensures
            final (self).armed,
            arm == !old(self).armed,
    {
        let arm = !self.armed;
        self.armed = true;
        arm
    }

    /// The armed timer fired and the commit callback ran: disarm, so that
    /// the next event arms a fresh timer.
    pub fn on_timer_fired(&mut self)
        ensures
            !final (self).armed,
    {
        self.armed = false;
    }
}

/// What the coordinator does with one item from the monitor's channel.
#[derive(Debug)]
pub enum MonitorStep {
    /// A change event arrived while no timer was armed: schedule the
    /// deferred commit for the quiet delay from now.
    Arm,
    /// A change event arrived while a timer was already armed: ignore it.
    Ignore,
    /// The monitor's channel erred or closed: no further trigger can ever
    /// be produced, which is fatal to the scheduler.
    Stop,
}

impl Debouncer {
    /// The coordinator's whole decision for one channel item: an error ends
    /// the scheduler, and a change event arms the guard when it was clear
    /// and is ignored otherwise.
    pub fn on_channel_item(&mut self, is_event: bool) -> (step: MonitorStep)
        ensures
            !is_event ==> step == MonitorStep::Stop && final (self).armed == old(self).armed,
            is_event ==> final (self).armed && step == (if old(self).armed {
                MonitorStep::Ignore
            } else {
                MonitorStep::Arm
            }),
    {
        if is_event {
            if self.on_event() {
                MonitorStep::Arm
            } else {
                MonitorStep::Ignore
            }
        } else {
            MonitorStep::Stop
        }
    }
}

/// The times at which commit triggers fire, for change events at the given
/// times (in arrival order), a quiet delay, and the deadline of the timer
/// armed right now, if any. An event that arrives with no timer armed arms
/// one for its own time plus the delay; an event that arrives while a timer
/// is armed is ignored; an armed timer always fires at its deadline, before
/// any event whose time has reached it.
pub open spec fn fire_times(events: Seq<int>, delay: int, pending: Option<int>) -> Seq<int>
    decreases events.len(),
{
    if events.len() == 0 {
        match pending {
            Some(deadline) => seq![deadline],
            None => Seq::empty(),
        }
    } else {
        match pending {
            None => fire_times(events.drop_first(), delay, Some(events[0] + delay)),
            Some(deadline) => if events[0] >= deadline {
                seq![deadline] + fire_times(events.drop_first(), delay, Some(events[0] + delay))
            } else {
                fire_times(events.drop_first(), delay, Some(deadline))
            },
        }
    }
}

/// While a timer with the given deadline is armed, events that all arrive
/// before the deadline are ignored, and the timer fires exactly once.
proof fn lemma_quiet_until_deadline(events: Seq<int>, delay: int, deadline: int)
    requires
        forall|i: int| 0 <= i < events.len() ==> #[trigger] events[i] < deadline,
    ensures
        fire_times(events, delay, Some(deadline)) == seq![deadline],
    decreases events.len(),
{
    if events.len() > 0 {
        let rest = events.drop_first();
        assert forall|i: int| 0 <= i < rest.len() implies #[trigger] rest[i] < deadline by {
            assert(rest[i] == events[i + 1]);
        }
        lemma_quiet_until_deadline(rest, delay, deadline);
    }
}

/// Any burst of one or more change events delivered strictly within the
/// quiet delay of the first fires exactly one commit trigger, at the first
/// event's time plus the delay.
pub proof fn lemma_single_burst_single_trigger(events: Seq<int>, delay: int)
    requires
        events.len() >= 1,
        0 <= delay,
        forall|i: int|
            0 <= i < events.len() ==> events[0] <= #[trigger] events[i] < events[0] + delay,
    ensures
        fire_times(events, delay, None) == seq![events[0] + delay],
{
    let rest = events.drop_first();
    assert forall|i: int| 0 <= i < rest.len() implies #[trigger] rest[i] < events[0] + delay by {
        assert(rest[i] == events[i + 1]);
    }
    lemma_quiet_until_deadline(rest, delay, events[0] + delay);
}

/// With a timer at `deadline` armed, events before the deadline are
/// ignored; then a whole burst within the delay of its own first event,
/// arriving at or after the deadline, makes the pending timer fire and
/// fires exactly one more trigger of its own.
proof fn lemma_quiet_then_burst(rest: Seq<int>, burst: Seq<int>, delay: int, deadline: int)
    requires
        0 <= delay,
        forall|i: int| 0 <= i < rest.len() ==> #[trigger] rest[i] < deadline,
        burst.len() >= 1,
        deadline <= burst[0],
        forall|i: int| 0 <= i < burst.len() ==> burst[0] <= #[trigger] burst[i] < burst[0] + delay,
    ensures
        fire_times(rest + burst, delay, Some(deadline)) == seq![deadline, burst[0] + delay],
    decreases rest.len(),
{
    if rest.len() == 0 {
        assert(rest + burst =~= burst);
        let tail = burst.drop_first();
        assert forall|i: int| 0 <= i < tail.len() implies #[trigger] tail[i] < burst[0] + delay by {
            assert(tail[i] == burst[i + 1]);
        }
        lemma_quiet_until_deadline(tail, delay, burst[0] + delay);
        assert(seq![deadline] + seq![burst[0] + delay] =~= seq![deadline, burst[0] + delay]);
    } else {
        assert((rest + burst)[0] == rest[0]);
        assert((rest + burst).drop_first() =~= rest.drop_first() + burst);
        let shorter = rest.drop_first();
        assert forall|i: int| 0 <= i < shorter.len() implies #[trigger] shorter[i] < deadline by {
            assert(shorter[i] == rest[i + 1]);
        }
        lemma_quiet_then_burst(shorter, burst, delay, deadline);
    }
}

/// Two bursts, each delivered within the quiet delay of its own first event
/// and separated by more than the delay, fire exactly two commit triggers:
/// one per burst, each at that burst's first event plus the delay.
pub proof fn lemma_two_bursts_two_triggers(burst1: Seq<int>, burst2: Seq<int>, delay: int)
    requires
        burst1.len() >= 1,
        burst2.len() >= 1,
        0 <= delay,
        forall|i: int|
            0 <= i < burst1.len() ==> burst1[0] <= #[trigger] burst1[i] < burst1[0] + delay,
        forall|i: int|
            0 <= i < burst2.len() ==> burst2[0] <= #[trigger] burst2[i] < burst2[0] + delay,
        burst1[0] + delay < burst2[0],
    ensures
        fire_times(burst1 + burst2, delay, None) == seq![burst1[0] + delay, burst2[0] + delay],
{
    let all = burst1 + burst2;
    assert(all[0] == burst1[0]);
    assert(all.drop_first() =~= burst1.drop_first() + burst2);
    let rest = burst1.drop_first();
    assert forall|i: int| 0 <= i < rest.len() implies #[trigger] rest[i] < burst1[0] + delay by {
        assert(rest[i] == burst1[i + 1]);
    }
    lemma_quiet_then_burst(rest, burst2, delay, burst1[0] + delay);
}

} // verus!
