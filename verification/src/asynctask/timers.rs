//! Alarms: wakers that are woken when a point in time has come.

use vstd::multiset::Multiset;
use vstd::prelude::*;

use crate::state::TaskState;

verus! {

/// The event of an alarm: the waker to be woken, by its number.
pub struct TaskWakeupEvent {
    pub waker: u64,
}

impl timer_list::TimerEvent for TaskWakeupEvent {
    /// Does nothing: whoever takes an event out of the list wakes its waker.
    fn callback(self, _now: core::time::Duration) {
    }
}

impl TaskWakeupEvent {
    /// Whether the event wakes `waker`.
    fn will_wake(&self, waker: u64) -> (b: bool)
        ensures
            b == (self.waker == waker),
    {
        self.waker == waker
    }
}

/// The alarms that have been set, in a `timer_list::TimerList`.
#[verifier::external_body]
pub struct AlarmList {
    list: timer_list::TimerList<TaskWakeupEvent>,
}

/// The alarms in the list, each a deadline in nanoseconds and a waker.
pub uninterp spec fn alarms(list: AlarmList) -> Multiset<(u64, u64)>;

/// No alarm.
pub open spec fn no_alarms() -> Multiset<(u64, u64)> {
    Multiset::empty()
}

/// Whether `alarm` is due at `now`, and none is due earlier.
pub open spec fn is_next_alarm(list: Multiset<(u64, u64)>, now: u64, alarm: (u64, u64)) -> bool {
    &&& list.contains(alarm)
    &&& alarm.0 <= now
    &&& forall|a: (u64, u64)| #[trigger] list.contains(a) ==> alarm.0 <= a.0
}

/// `timer_list::TimerList::new`: an empty list.
#[verifier::external_body]
fn list_new() -> (list: AlarmList)
    ensures
        alarms(list) == no_alarms(),
{
    AlarmList { list: timer_list::TimerList::new() }
}

/// `timer_list::TimerList::set`: adds an event to the list.
#[verifier::external_body]
fn list_set(list: &mut AlarmList, deadline: u64, waker: u64)
    ensures
        alarms(*final(list)) == alarms(*old(list)).insert((deadline, waker)),
{
    list.list.set(core::time::Duration::from_nanos(deadline), TaskWakeupEvent { waker });
}

/// `timer_list::TimerList::cancel`: removes the events that meet a condition, here those
/// of one waker, and no others.
#[verifier::external_body]
fn list_cancel(list: &mut AlarmList, waker: u64)
    ensures
        alarms(*final(list)) == alarms(*old(list)).filter(|alarm: (u64, u64)| alarm.1 != waker),
{
    list.list.cancel(|event| event.will_wake(waker));
}

/// `timer_list::TimerList::expire_one`: takes out an event with the earliest deadline, if
/// that has come. Which one of several with the same deadline is left open.
#[verifier::external_body]
fn list_expire_one(list: &mut AlarmList, now: u64) -> (alarm: Option<(u64, u64)>)
    ensures
        alarm.is_none() ==> alarms(*final(list)) == alarms(*old(list)),
        alarm.is_none() ==> forall|a: (u64, u64)|
            #[trigger] alarms(*old(list)).contains(a) ==> a.0 > now,
        alarm matches Some(e) ==> is_next_alarm(alarms(*old(list)), now, e) && alarms(*final(list))
            == alarms(*old(list)).remove(e),
{
    let expired = list.list.expire_one(core::time::Duration::from_nanos(now));
    expired.map(|(deadline, event)| (deadline.as_nanos() as u64, event.waker))
}

/// Makes a list without alarms.
pub fn init() -> (list: AlarmList)
    ensures
        alarms(list) == no_alarms(),
{
    list_new()
}

/// Sets an alarm for a task, which is blocking from then on.
pub fn set_alarm_wakeup(
    list: &mut AlarmList,
    state: &mut TaskState,
    deadline: u64,
    waker: u64,
)
    ensures
        *final(state) == TaskState::Blocking,
        alarms(*final(list)) == alarms(*old(list)).insert((deadline, waker)),
{
    *state = TaskState::Blocking;
    list_set(list, deadline, waker);
}

/// Cancels every alarm of `waker`, and no other.
pub fn cancel_alarm(list: &mut AlarmList, waker: u64)
    ensures
        alarms(*final(list)) == alarms(*old(list)).filter(|alarm: (u64, u64)| alarm.1 != waker),
{
    list_cancel(list, waker);
}

/// The alarm that is due next at the time `now`, as its deadline and the waker to be
/// woken: one with the earliest deadline, if that has come. It is then gone from the list.
/// This is called, each time with the time as it is then, until it returns none.
pub fn check_events(list: &mut AlarmList, now: u64) -> (alarm: Option<(u64, u64)>)
    ensures
        alarm.is_none() ==> alarms(*final(list)) == alarms(*old(list)),
        alarm.is_none() <==> forall|a: (u64, u64)|
            #[trigger] alarms(*old(list)).contains(a) ==> a.0 > now,
        alarm matches Some(e) ==> is_next_alarm(alarms(*old(list)), now, e) && alarms(*final(list))
            == alarms(*old(list)).remove(e),
{
    list_expire_one(list, now)
}

/// An alarm that was set is in the list once more than before, and cancelling its waker
/// leaves none of that waker's alarms.
pub proof fn law_cancel_undoes_set(before: Multiset<(u64, u64)>, deadline: u64, waker: u64)
    ensures
        before.insert((deadline, waker)).count((deadline, waker)) == before.count(
            (deadline, waker),
        ) + 1,
        before.insert((deadline, waker)).filter(|alarm: (u64, u64)| alarm.1 != waker)
            == before.filter(|alarm: (u64, u64)| alarm.1 != waker),
{
    broadcast use vstd::multiset::group_multiset_axioms;

    assert(before.insert((deadline, waker)).filter(|alarm: (u64, u64)| alarm.1 != waker)
        =~= before.filter(|alarm: (u64, u64)| alarm.1 != waker));
}

} // verus!
