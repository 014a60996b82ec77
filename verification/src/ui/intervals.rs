//! The polling intervals, and the fields in which the user types them.

use vstd::prelude::*;
use crate::decimal;
use crate::messages::{Queue, UiCommand};
use crate::state::NotificationKind;
use crate::text;
use crate::text::{parse_number, print_number};

verus! {

/// The interval of each polling loop in milliseconds; zero switches a loop off.
#[derive(Clone, Copy, Debug, PartialEq, Eq, Structural)]
pub struct PollConfig {
    pub orders: u64,
    pub trades: u64,
    pub rapid_sell: u64,
}

impl PollConfig {
    /// The interval of a loop.
    pub open spec fn get_spec(self, queue: Queue) -> u64 {
        match queue {
            Queue::Orders => self.orders,
            Queue::Trades => self.trades,
            Queue::RapidSell => self.rapid_sell,
        }
    }

    /// The interval of a loop.
    pub fn get(&self, queue: Queue) -> (r: u64)
        ensures
            r == self.get_spec(queue),
    {
        match queue {
            Queue::Orders => self.orders,
            Queue::Trades => self.trades,
            Queue::RapidSell => self.rapid_sell,
        }
    }

    /// Sets the interval of a loop, and leaves the others.
    pub fn set(&mut self, queue: Queue, milliseconds: u64)
        ensures
            forall|q: Queue| #[trigger]
                final(self).get_spec(q) == (if q == queue {
                    milliseconds
                } else {
                    old(self).get_spec(q)
                }),
    {
        match queue {
            Queue::Orders => {
                self.orders = milliseconds;
            },
            Queue::Trades => {
                self.trades = milliseconds;
            },
            Queue::RapidSell => {
                self.rapid_sell = milliseconds;
            },
        }
    }
}

/// What stands in the field of each loop.
pub struct IntervalInputs {
    pub orders: String,
    pub trades: String,
    pub rapid_sell: String,
}

impl IntervalInputs {
    /// What stands in the field of a loop.
    pub open spec fn field(self, queue: Queue) -> Seq<char> {
        match queue {
            Queue::Orders => self.orders@,
            Queue::Trades => self.trades@,
            Queue::RapidSell => self.rapid_sell@,
        }
    }

    /// The fields with the intervals that are in force.
    pub fn of_config(config: &PollConfig) -> (r: Self)
        ensures
            forall|q: Queue| #[trigger] r.field(q) == decimal::digits(config.get_spec(q) as nat),
    {
        IntervalInputs {
            orders: print_number(config.orders),
            trades: print_number(config.trades),
            rapid_sell: print_number(config.rapid_sell),
        }
    }

    /// The field of a loop, to be written to. The other fields stay.
    pub fn get_mut(&mut self, queue: Queue) -> (r: &mut String)
        ensures
            r@ == old(self).field(queue),
            final(self).field(queue) == final(r)@,
            forall|q: Queue| q != queue ==> #[trigger] final(self).field(q) == old(self).field(q),
    {
        match queue {
            Queue::Orders => &mut self.orders,
            Queue::Trades => &mut self.trades,
            Queue::RapidSell => &mut self.rapid_sell,
        }
    }

    /// What stands in the field of a loop.
    pub fn get(&self, queue: Queue) -> (r: &str)
        ensures
            r@ == self.field(queue),
    {
        match queue {
            Queue::Orders => self.orders.as_str(),
            Queue::Trades => self.trades.as_str(),
            Queue::RapidSell => self.rapid_sell.as_str(),
        }
    }
}

/// What follows when the user confirms a field: a command, where the text is a number, and a
/// message.
#[derive(Debug)]
pub struct Submission {
    pub command: Option<UiCommand>,
    pub message: String,
    pub kind: NotificationKind,
}

/// The number that a field stands for.
pub open spec fn interval_of(value: Seq<char>) -> Option<u64> {
    if text::is_number(value) && text::number_value(value) <= u64::MAX {
        Some(text::number_value(value) as u64)
    } else {
        None
    }
}

/// Whether this is what follows when a value is confirmed in the field of a loop.
pub open spec fn is_submission(r: Submission, label: Seq<char>, value: Seq<char>, queue: Queue) -> bool {
    match interval_of(value) {
        Some(ms) => {
            &&& r.command == Some(UiCommand::UpdatePollInterval { milliseconds: ms, queue })
            &&& r.message@ == label + " updated to "@ + decimal::digits(ms as nat) + " ms"@
            &&& r.kind is Success
        },
        None => {
            &&& r.command is None
            &&& r.message@ == "Invalid interval value"@
            &&& r.kind is Error
        },
    }
}

/// The user confirms the field of a loop.
pub fn submit_interval(label: &str, value: &str, queue: Queue) -> (r: Submission)
    ensures
        is_submission(r, label@, value@, queue),
{
    match parse_number(value) {
        Some(ms) => {
            let number = print_number(ms);
            Submission {
                command: Some(UiCommand::UpdatePollInterval { milliseconds: ms, queue }),
                message: label.to_owned().concat(" updated to ").concat(number.as_str()).concat(
                    " ms",
                ),
                kind: NotificationKind::Success,
            }
        },
        None => Submission {
            command: None,
            message: "Invalid interval value".to_owned(),
            kind: NotificationKind::Error,
        },
    }
}

/// The digits of a number are digits, and stand for it.
proof fn lemma_digits_read_back(n: nat)
    ensures
        decimal::digits(n).len() > 0,
        forall|i: int|
            0 <= i < decimal::digits(n).len() ==> '0' <= #[trigger] decimal::digits(n)[i] <= '9',
        text::number_of(decimal::digits(n)) == n,
    decreases n,
{
    let d = decimal::digits(n);
    if n < 10 {
        assert(d.drop_last() =~= Seq::empty());
        assert(text::number_of(d.drop_last()) == 0);
        assert(d.last() as int == 48 + n);
    } else {
        lemma_digits_read_back(n / 10);
        let rest = decimal::digits(n / 10);
        assert(d.drop_last() =~= rest);
        assert(d.last() as int == 48 + n % 10);
        assert forall|i: int| 0 <= i < d.len() implies '0' <= #[trigger] d[i] <= '9' by {
            if i < rest.len() {
                assert(d[i] == rest[i]);
            }
        }
    }
}

/// An interval that is shown reads back as itself: to confirm a field without a change leaves
/// the interval as it is.
pub proof fn law_shown_interval_reads_back(milliseconds: u64)
    ensures
        interval_of(decimal::digits(milliseconds as nat)) == Some(milliseconds),
{
    let d = decimal::digits(milliseconds as nat);
    lemma_digits_read_back(milliseconds as nat);
    assert('0' <= d[0] <= '9');
    assert(d[0] != '+');
}

/// To confirm the field of a loop that shows an interval sets that loop to that interval, and says
/// so; a field with anything but digits sets nothing.
pub proof fn law_confirmed_field_sets_its_loop(
    inputs: IntervalInputs,
    milliseconds: u64,
    queue: Queue,
    label: Seq<char>,
    r: Submission,
)
    ensures
        inputs.field(queue) == decimal::digits(milliseconds as nat) && is_submission(
            r,
            label,
            inputs.field(queue),
            queue,
        ) ==> r.kind is Success && r.command == Some(
            UiCommand::UpdatePollInterval { milliseconds, queue },
        ),
        is_submission(r, label, inputs.field(queue), queue) && (inputs.field(queue).len() == 0 || exists|
            i: int,
        |
            0 < i < inputs.field(queue).len() && !('0' <= #[trigger] inputs.field(queue)[i] <= '9'))
            ==> r.command is None && r.kind is Error,
        queue is Orders ==> inputs.field(queue) == inputs.orders@,
        queue is Trades ==> inputs.field(queue) == inputs.trades@,
        queue is RapidSell ==> inputs.field(queue) == inputs.rapid_sell@,
{
    law_shown_interval_reads_back(milliseconds);
    let value = inputs.field(queue);
    if exists|i: int| 0 < i < value.len() && !('0' <= #[trigger] value[i] <= '9') {
        let i = choose|i: int| 0 < i < value.len() && !('0' <= #[trigger] value[i] <= '9');
        let body = if value.len() > 0 && value[0] == '+' { value.skip(1) } else { value };
        if value[0] == '+' {
            assert(body[i - 1] == value[i]);
        } else {
            assert(body[i] == value[i]);
        }
        assert(!text::is_number(value));
    }
}

/// Each loop has its own interval.
pub proof fn law_each_loop_has_its_interval(config: PollConfig)
    ensures
        config.get_spec(Queue::Orders) == config.orders,
        config.get_spec(Queue::Trades) == config.trades,
        config.get_spec(Queue::RapidSell) == config.rapid_sell,
{
}

} // verus!
