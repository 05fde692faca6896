//! The day/night cycle: what shows up when the night alarm rings, and what is
//! put back when a new day starts.

use vstd::prelude::*;

verus! {

/// Marks elements that appear when the night is near.
#[derive(Clone, Copy, PartialEq, Eq, Structural, Debug)]
pub struct ShowOnAlarmTime {
    /// Whether it is time to show the element.
    pub show: bool,
    /// Whether the element's start and end positions are to be swapped the
    /// next time the alarm rings.
    swap_pos: bool,
}

impl ShowOnAlarmTime {
    /// Whether the element is shown.
    pub closed spec fn shown(&self) -> bool {
        self.show
    }

    /// Whether a swap of positions is pending for the next alarm.
    pub closed spec fn swap_pending(&self) -> bool {
        self.swap_pos
    }

    /// Hidden, with no swap pending.
    pub closed spec fn fresh_spec() -> ShowOnAlarmTime {
        ShowOnAlarmTime { show: false, swap_pos: false }
    }

    /// Hidden, with no swap pending.
    pub fn as_false() -> (s: Self)
        ensures
            s == ShowOnAlarmTime::fresh_spec(),
            !s.shown(),
            !s.swap_pending(),
    {
        ShowOnAlarmTime { show: false, swap_pos: false }
    }

    /// Whether the element is shown.
    pub fn is_shown(&self) -> (b: bool)
        ensures
            b == self.shown(),
    {
        self.show
    }

    /// Whether a swap of positions is pending for the next alarm.
    pub fn swap_pos(&self) -> (b: bool)
        ensures
            b == self.swap_pending(),
    {
        self.swap_pos
    }

    /// State and swap after an alarm.
    pub closed spec fn alarm_spec(self, is_tool_bench: bool, tool_bench_raised: bool) -> (ShowOnAlarmTime, bool) {
        (
            ShowOnAlarmTime { show: true, swap_pos: self.swap_pos },
            (!is_tool_bench || tool_bench_raised) && self.swap_pos,
        )
    }

    /// State and swap at the start of a new day.
    pub closed spec fn new_day_spec(self, is_tool_bench: bool) -> (ShowOnAlarmTime, bool) {
        (ShowOnAlarmTime { show: false, swap_pos: true }, !is_tool_bench)
    }

    /// The night alarm rang: the element is shown, and its positions are to be
    /// swapped if a swap is pending, except for the tool bench while it is not
    /// raised. Returns whether to swap.
    pub fn on_alarm(&mut self, is_tool_bench: bool, tool_bench_raised: bool) -> (swap: bool)
        ensures
            final(self).shown(),
            final(self).swap_pending() == old(self).swap_pending(),
            swap == ((!is_tool_bench || tool_bench_raised) && old(self).swap_pending()),
            (*final(self), swap) == old(self).alarm_spec(is_tool_bench, tool_bench_raised),
    {
        self.show = true;
        (!is_tool_bench || tool_bench_raised) && self.swap_pos
    }

    /// A new day starts: the element is hidden, its positions are swapped
    /// back (except for the tool bench), and a swap is pending for the next
    /// alarm. Returns whether to swap now.
    pub fn on_new_day(&mut self, is_tool_bench: bool) -> (swap: bool)
        ensures
            !final(self).shown(),
            final(self).swap_pending(),
            swap == !is_tool_bench,
            (*final(self), swap) == old(self).new_day_spec(is_tool_bench),
    {
        self.show = false;
        self.swap_pos = true;
        !is_tool_bench
    }

    /// Whether the element's lamps toggle: when its timer has just finished
    /// while it is shown.
    pub fn lamps_toggle(&self, timer_just_finished: bool) -> (b: bool)
        ensures
            b == (timer_just_finished && self.shown()),
    {
        timer_just_finished && self.show
    }
}

/// A fresh element is not swapped at its first alarm; after a new day, an
/// element that is not the tool bench is swapped at the day's start and
/// swapped again at the next alarm, and the tool bench is swapped at the next
/// alarm exactly when it is raised.
pub proof fn lemma_day_then_alarm(s: ShowOnAlarmTime, raised: bool)
    ensures
        !ShowOnAlarmTime::fresh_spec().alarm_spec(false, raised).1,
        s.new_day_spec(false).1,
        s.new_day_spec(false).0.alarm_spec(false, raised).1,
        s.new_day_spec(false).0.alarm_spec(false, raised).0.shown(),
        !s.new_day_spec(true).1,
        s.new_day_spec(true).0.alarm_spec(true, raised).1 == raised,
{
}

} // verus!
