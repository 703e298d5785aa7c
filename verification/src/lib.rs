//! Usage-quota tracking with threshold notifications.
//!
//! A [`LimitTracker`] holds a current usage value and a fixed maximum. Each
//! time the value is set, the tracker compares the usage ratio against fixed
//! thresholds (75%, 90%, 100%) and, when a threshold is reached, sends a
//! fixed message through a caller-supplied [`Messenger`].

use vstd::prelude::*;
use vstd::string::StringExecFns;

verus! {

/// The message sent when usage reaches the maximum.
pub open spec fn over_quota_message() -> Seq<char> {
    "Error: You are over your quota!"@
}

/// The message sent when usage reaches 90% of the maximum but stays below it.
pub open spec fn urgent_warning_message() -> Seq<char> {
    "Urgent Warning: You've used up over 90% of your quota!"@
}

/// The message sent when usage reaches 75% of the maximum but stays below 90%.
pub open spec fn warning_message() -> Seq<char> {
    "Warning: You've used up over 75% of your quota!"@
}

/// The message, if any, that setting the usage to `value` sends when the
/// maximum is `max`. The thresholds are checked from highest to lowest and
/// the first one reached wins, so at most one message is due per update.
///
/// The comparisons are exact rational comparisons: `value / max >= 9/10`
/// holds exactly when `10 * value >= 9 * max`, and likewise for the other
/// thresholds. With `max == 0` the ratio is unbounded, so every value counts
/// as over quota.
pub open spec fn threshold_message(value: int, max: int) -> Option<Seq<char>> {
    if value >= max {
        Some(over_quota_message())
    } else if 10 * value >= 9 * max {
        Some(urgent_warning_message())
    } else if 4 * value >= 3 * max {
        Some(warning_message())
    } else {
        None
    }
}

/// A notification target. The tracker depends only on this capability, never
/// on a concrete implementation, so callers can substitute any channel (a
/// log, a display, a queue).
pub trait Messenger {
    /// All messages sent through this messenger so far, oldest first.
    spec fn sent(&self) -> Seq<Seq<char>>;

    /// Sends one message, appending exactly it to the log of sent messages.
    fn send(&mut self, msg: &str)
        ensures
            final(self).sent() == old(self).sent().push(msg@),
    ;
}

/// A [`Messenger`] that keeps every message in a vector, oldest first, for
/// callers that want to inspect what was sent.
pub struct VecMessenger {
    /// Every message sent through this messenger, oldest first.
    pub sent_messages: Vec<String>,
}

impl VecMessenger {
    /// Creates a messenger whose log is empty.
    pub fn new() -> (r: VecMessenger)
        ensures
            r.sent() == Seq::<Seq<char>>::empty(),
    {
        let r = VecMessenger { sent_messages: Vec::new() };
        proof {
            assert(r.sent() =~= Seq::<Seq<char>>::empty());
        }
        r
    }
}

impl Messenger for VecMessenger {
    open spec fn sent(&self) -> Seq<Seq<char>> {
        self.sent_messages@.map_values(|s: String| s@)
    }

    fn send(&mut self, msg: &str) {
        self.sent_messages.push(String::from_str(msg));
        proof {
            assert(self.sent() =~= old(self).sent().push(msg@));
        }
    }
}

/// Tracks usage of a resource against a fixed maximum and notifies a
/// [`Messenger`] whenever a newly set value reaches a threshold.
pub struct LimitTracker<T: Messenger> {
    messenger: T,
    value: usize,
    max: usize,
}

impl<T: Messenger> LimitTracker<T> {
    /// The notification target this tracker sends through.
    pub closed spec fn spec_messenger(&self) -> T {
        self.messenger
    }

    /// The current usage value.
    pub closed spec fn spec_value(&self) -> usize {
        self.value
    }

    /// The maximum usage, fixed at construction.
    pub closed spec fn spec_max(&self) -> usize {
        self.max
    }

    /// Creates a tracker over the given messenger, with the given maximum and
    /// a usage value of zero. A maximum of zero is accepted; every later
    /// update then reports over-quota usage, as [`threshold_message`] states.
    pub fn new(messenger: T, max: usize) -> (r: LimitTracker<T>)
        ensures
            r.spec_messenger() == messenger,
            r.spec_value() == 0,
            r.spec_max() == max,
    {
        LimitTracker { messenger, value: 0, max }
    }

    /// Sets the usage value and sends the threshold message this crosses, if
    /// any: exactly one message per call when a threshold is reached, none
    /// otherwise. Every call is independent of the tracker's history; only
    /// the new value and the fixed maximum decide what is sent.
    pub fn set_value(&mut self, value: usize)
        ensures
            final(self).spec_value() == value,
            final(self).spec_max() == old(self).spec_max(),
            match threshold_message(value as int, old(self).spec_max() as int) {
                Some(m) => final(self).spec_messenger().sent()
                    == old(self).spec_messenger().sent().push(m),
                None => final(self).spec_messenger() == old(self).spec_messenger(),
            },
    {
        self.value = value;
        if value >= self.max {
            self.messenger.send("Error: You are over your quota!");
        } else {
            let v = value as u128;
            let m = self.max as u128;
            if 10 * v >= 9 * m {
                self.messenger.send("Urgent Warning: You've used up over 90% of your quota!");
            } else if 4 * v >= 3 * m {
                self.messenger.send("Warning: You've used up over 75% of your quota!");
            }
        }
    }

    /// The current usage value.
    pub fn value(&self) -> (v: usize)
        ensures
            v == self.spec_value(),
    {
        self.value
    }

    /// The maximum usage, fixed at construction.
    pub fn max(&self) -> (m: usize)
        ensures
            m == self.spec_max(),
    {
        self.max
    }

    /// The messenger this tracker sends through.
    pub fn messenger(&self) -> (m: &T)
        ensures
            m == self.spec_messenger(),
    {
        &self.messenger
    }
}

/// Below three quarters of the maximum nothing is sent: for every positive
/// maximum and every value whose ratio to it is under 3/4 (that is,
/// `4 * value < 3 * max`), no threshold is reached, so by `set_value`'s
/// contract the update sends no message.
pub proof fn lemma_below_three_quarters_sends_nothing(value: int, max: int)
    requires
        0 <= value,
        0 < max,
        4 * value < 3 * max,
    ensures
        threshold_message(value, max) is None,
{
}

/// In the 75% band exactly the 75% warning is due: for every positive maximum
/// and every value whose ratio to it is at least 3/4 and under 9/10, the
/// threshold message is the 75% warning, so by `set_value`'s contract the
/// update appends exactly that one message.
pub proof fn lemma_three_quarters_band_sends_warning(value: int, max: int)
    requires
        0 < max,
        3 * max <= 4 * value,
        10 * value < 9 * max,
    ensures
        threshold_message(value, max) == Some(warning_message()),
{
}

/// In the 90% band exactly the urgent warning is due: for every positive
/// maximum and every value whose ratio to it is at least 9/10 and under 1,
/// the threshold message is the urgent warning, so by `set_value`'s contract
/// the update appends exactly that one message.
pub proof fn lemma_nine_tenths_band_sends_urgent_warning(value: int, max: int)
    requires
        0 < max,
        9 * max <= 10 * value,
        value < max,
    ensures
        threshold_message(value, max) == Some(urgent_warning_message()),
{
}

/// At or over the maximum exactly the over-quota error is due, however far
/// the value exceeds the maximum, so by `set_value`'s contract the update
/// appends exactly that one message.
pub proof fn lemma_at_or_over_maximum_sends_over_quota(value: int, max: int)
    requires
        max <= value,
    ensures
        threshold_message(value, max) == Some(over_quota_message()),
{
}

/// Every threshold is closed at its lower edge: a ratio of exactly 3/4 sends
/// the 75% warning, exactly 9/10 the urgent warning, and exactly 1 the
/// over-quota error.
pub proof fn lemma_thresholds_closed_at_lower_edge(value: int, max: int)
    requires
        0 < max,
    ensures
        4 * value == 3 * max ==> threshold_message(value, max) == Some(warning_message()),
        10 * value == 9 * max ==> threshold_message(value, max) == Some(urgent_warning_message()),
        value == max ==> threshold_message(value, max) == Some(over_quota_message()),
{
}

} // verus!
