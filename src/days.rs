use vstd::prelude::*;

verus! {

/// Monday's bit.
pub const MONDAY: u8 = 0x01;

/// Tuesday's bit.
pub const TUESDAY: u8 = 0x02;

/// Wednesday's bit.
pub const WEDNESDAY: u8 = 0x04;

/// Thursday's bit.
pub const THURSDAY: u8 = 0x08;

/// Friday's bit.
pub const FRIDAY: u8 = 0x10;

/// Saturday's bit.
pub const SATURDAY: u8 = 0x20;

/// Sunday's bit.
pub const SUNDAY: u8 = 0x40;

/// Monday to Friday.
pub const WEEKDAYS: u8 = MONDAY | TUESDAY | WEDNESDAY | THURSDAY | FRIDAY;

/// Saturday and Sunday.
pub const WEEKENDS: u8 = SATURDAY | SUNDAY;

/// Monday, Wednesday and Friday.
pub const MWF: u8 = MONDAY | WEDNESDAY | FRIDAY;

/// Tuesday and Thursday.
pub const TTH: u8 = TUESDAY | THURSDAY;

/// Every day of the week.
pub const ALL_DAYS: u8 = 0x7f;

/// The days of the week a reminder can be set for, one bit per day from
/// Monday (lowest) to Sunday.
#[derive(Clone, Copy, PartialEq, Eq, Structural, Debug, Hash)]
pub struct ReminderDaysOfWeek {
    bits: u8,
}

/// The bit of the `i`-th day of the week, Monday first.
pub open spec fn day_bit(i: int) -> u8 {
    if i == 0 {
        MONDAY
    } else if i == 1 {
        TUESDAY
    } else if i == 2 {
        WEDNESDAY
    } else if i == 3 {
        THURSDAY
    } else if i == 4 {
        FRIDAY
    } else if i == 5 {
        SATURDAY
    } else {
        SUNDAY
    }
}

/// The short name of the `i`-th day of the week, Monday first.
pub open spec fn day_name(i: int) -> Seq<char> {
    if i == 0 {
        "Mon"@
    } else if i == 1 {
        "Tue"@
    } else if i == 2 {
        "Wed"@
    } else if i == 3 {
        "Thu"@
    } else if i == 4 {
        "Fri"@
    } else if i == 5 {
        "Sat"@
    } else {
        "Sun"@
    }
}

/// The short names of the days among the first `n` of the week whose bit is
/// set in `bits`, in week order.
pub open spec fn day_names(bits: u8, n: nat) -> Seq<Seq<char>>
    decreases n,
{
    if n == 0 {
        Seq::empty()
    } else {
        let prev = day_names(bits, (n - 1) as nat);
        if bits & day_bit(n - 1) != 0 {
            prev.push(day_name(n - 1))
        } else {
            prev
        }
    }
}

/// The names joined with ", " between them.
pub open spec fn join_names(names: Seq<Seq<char>>) -> Seq<char>
    decreases names.len(),
{
    if names.len() == 0 {
        Seq::empty()
    } else if names.len() == 1 {
        names[0]
    } else {
        join_names(names.drop_last()) + ", "@ + names.last()
    }
}

/// How a set of days is shown: the name of a common group, or the short
/// names of its days separated by ", ".
pub open spec fn days_label(bits: u8) -> Seq<char> {
    if bits == WEEKDAYS {
        "Weekdays"@
    } else if bits == WEEKENDS {
        "Weekends"@
    } else if bits == MWF {
        "MWF"@
    } else if bits == TTH {
        "TTH"@
    } else {
        join_names(day_names(bits, 7))
    }
}

impl ReminderDaysOfWeek {
    /// The day bits.
    pub closed spec fn bits_view(&self) -> u8 {
        self.bits
    }

    /// No day.
    pub fn empty() -> (r: Self)
        ensures
            r.bits_view() == 0,
    {
        ReminderDaysOfWeek { bits: 0 }
    }

    /// Every day of the week.
    pub fn all() -> (r: Self)
        ensures
            r.bits_view() == ALL_DAYS,
    {
        ReminderDaysOfWeek { bits: ALL_DAYS }
    }

    /// The days whose bits are set in `bits`; other bits are dropped.
    pub fn from_bits_truncate(bits: u8) -> (r: Self)
        ensures
            r.bits_view() == bits & ALL_DAYS,
    {
        ReminderDaysOfWeek { bits: bits & ALL_DAYS }
    }

    /// The day bits.
    pub fn bits(&self) -> (r: u8)
        ensures
            r == self.bits_view(),
    {
        self.bits
    }

    /// Whether no day is set.
    pub fn is_empty(&self) -> (r: bool)
        ensures
            r == (self.bits_view() == 0),
    {
        self.bits == 0
    }

    /// Whether every day of `other` is also in `self`.
    pub fn contains(&self, other: Self) -> (r: bool)
        ensures
            r == (self.bits_view() & other.bits_view() == other.bits_view()),
    {
        self.bits & other.bits == other.bits
    }

    /// Adds the days of `other`.
    pub fn insert(&mut self, other: Self)
        ensures
            final(self).bits_view() == old(self).bits_view() | other.bits_view(),
    {
        self.bits = self.bits | other.bits;
    }

    /// Removes the days of `other`.
    pub fn remove(&mut self, other: Self)
        ensures
            final(self).bits_view() == old(self).bits_view() & !other.bits_view(),
    {
        self.bits = self.bits & !other.bits;
    }

    /// Flips the days of `other`.
    pub fn toggle(&mut self, other: Self)
        ensures
            final(self).bits_view() == old(self).bits_view() ^ other.bits_view(),
    {
        self.bits = self.bits ^ other.bits;
    }

    /// Adds the days of `other` if `enabled`, removes them otherwise.
    pub fn set(&mut self, other: Self, enabled: bool)
        ensures
            final(self).bits_view() == if enabled {
                old(self).bits_view() | other.bits_view()
            } else {
                old(self).bits_view() & !other.bits_view()
            },
    {
        if enabled {
            self.insert(other);
        } else {
            self.remove(other);
        }
    }

    /// The text shown for the set of days: "Weekdays", "Weekends", "MWF" or
    /// "TTH" for those groups, otherwise the short day names in week order
    /// separated by ", " (empty for no day).
    pub fn label(&self) -> (r: String)
        ensures
            r@ == days_label(self.bits_view()),
    {
        let bits = self.bits;
        if bits == WEEKDAYS {
            return "Weekdays".to_string();
        }
        if bits == WEEKENDS {
            return "Weekends".to_string();
        }
        if bits == MWF {
            return "MWF".to_string();
        }
        if bits == TTH {
            return "TTH".to_string();
        }
        let masks: [u8; 7] = [MONDAY, TUESDAY, WEDNESDAY, THURSDAY, FRIDAY, SATURDAY, SUNDAY];
        let names: [&str; 7] = ["Mon", "Tue", "Wed", "Thu", "Fri", "Sat", "Sun"];
        let mut out = String::new();
        let mut first = true;
        let mut i: usize = 0;
        while i < 7
            invariant
                0 <= i <= 7,
                forall|j: int| 0 <= j < 7 ==> #[trigger] masks@[j] == day_bit(j),
                forall|j: int| 0 <= j < 7 ==> #[trigger] names@[j]@ == day_name(j),
                out@ == join_names(day_names(bits, i as nat)),
                first == (day_names(bits, i as nat).len() == 0),
            decreases 7 - i,
        {
            let ghost prev = day_names(bits, i as nat);
            if bits & masks[i] != 0 {
                let ghost next = prev.push(day_name(i as int));
                assert(next.drop_last() == prev);
                if !first {
                    out.append(", ");
                } else {
                    assert(prev.len() == 0);
                    assert(next.len() == 1);
                }
                out.append(names[i]);
                first = false;
                assert(day_names(bits, (i + 1) as nat) == next);
            }
            i = i + 1;
        }
        out
    }
}

} // verus!
