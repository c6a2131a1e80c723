//! Filters of an entity-history request: time ranges and the order of the answer.

use vstd::prelude::*;
use vstd::string::StringExecFns;
use crate::time::Timestamp;
use crate::time::formatted_time;
use crate::time::range_pattern;
use crate::time::range_time_text;

verus! {

/// The query-string fragment for one bound of a range: its label and the
/// timestamp, or nothing where the range is open on that side. The timestamp
/// is written as the date and time of its own offset, without the zone.
pub open spec fn bound_text(label: Seq<char>, bound: Option<Timestamp>) -> Seq<char> {
    match bound {
        Some(t) => label + range_time_text(t@),
        None => Seq::empty(),
    }
}

/// The order in which an entity's history is answered.
#[derive(Clone, Copy, Debug, PartialEq, Eq)]
pub enum Order {
    /// Oldest first.
    Asc,
    /// Newest first.
    Desc,
}

impl Order {
    /// The token that names the order in a request.
    pub open spec fn text(self) -> Seq<char> {
        match self {
            Order::Asc => "asc"@,
            Order::Desc => "desc"@,
        }
    }

    /// Writes the order out as its lower-case token.
    pub fn serialize(self) -> (out: String)
        ensures
            out@ == self.text(),
    {
        match self {
            Order::Asc => String::from_str("asc"),
            Order::Desc => String::from_str("desc"),
        }
    }
}

/// A range of valid time or of transaction time, open on either side where
/// the bound is `None`. The first bound is the start, the second the end.
#[derive(Clone, Copy, Debug, PartialEq)]
pub enum TimeHistory {
    /// A range of the time at which facts hold.
    ValidTime(Option<Timestamp>, Option<Timestamp>),
    /// A range of the time at which facts were recorded.
    TransactionTime(Option<Timestamp>, Option<Timestamp>),
}

/// Appends the fragment for one bound to `out`.
fn push_bound(out: &mut String, label: &str, bound: &Option<Timestamp>)
    ensures
        final(out)@ == old(out)@ + bound_text(label@, *bound),
{
    match bound {
        Some(t) => {
            let stamp = t.format_range();
            out.append(label);
            out.append(stamp.as_str());
            assert(out@ =~= old(out)@ + bound_text(label@, *bound));
        },
        None => {
            assert(out@ =~= old(out)@ + bound_text(label@, *bound));
        },
    }
}

impl TimeHistory {
    /// The query-string fragment of the range: the start bound, then the end
    /// bound, each only where it is given.
    pub open spec fn text(self) -> Seq<char> {
        match self {
            TimeHistory::ValidTime(start, end) => {
                bound_text("&start-valid-time="@, start) + bound_text("&end-valid-time="@, end)
            },
            TimeHistory::TransactionTime(start, end) => {
                bound_text("&start-transaction-time="@, start) + bound_text(
                    "&end-transaction-time="@,
                    end,
                )
            },
        }
    }

    /// Writes the range out without giving it up.
    pub fn render(&self) -> (out: String)
        ensures
            out@ == self.text(),
    {
        let mut out = String::new();
        match self {
            TimeHistory::ValidTime(start, end) => {
                push_bound(&mut out, "&start-valid-time=", start);
                push_bound(&mut out, "&end-valid-time=", end);
            },
            TimeHistory::TransactionTime(start, end) => {
                push_bound(&mut out, "&start-transaction-time=", start);
                push_bound(&mut out, "&end-transaction-time=", end);
            },
        }
        assert(out@ =~= self.text());
        out
    }

    /// Writes the range out as a fragment of a query string.
    pub fn serialize(self) -> (out: String)
        ensures
            out@ == self.text(),
    {
        self.render()
    }
}

/// The fragment for several ranges used together. One range or two are
/// written one after the other; any other number of them is ignored as a
/// whole and leaves no text.
pub open spec fn ranges_text(ranges: Seq<TimeHistory>) -> Seq<char> {
    if ranges.len() == 1 {
        ranges[0].text()
    } else if ranges.len() == 2 {
        ranges[0].text() + ranges[1].text()
    } else {
        Seq::empty()
    }
}

/// Rendering of a whole collection as one piece of text.
pub trait VecSer: Sized {
    /// The text that stands for the collection.
    spec fn text(self) -> Seq<char>;

    /// Writes the collection out.
    fn serialize(self) -> (out: String)
        ensures
            out@ == self.text(),
    ;
}

impl VecSer for Vec<TimeHistory> {
    open spec fn text(self) -> Seq<char> {
        ranges_text(self@)
    }

    fn serialize(self) -> (out: String) {
        if self.len() == 1 {
            self[0].render()
        } else if self.len() == 2 {
            let mut out = self[0].render();
            let second = self[1].render();
            out.append(second.as_str());
            out
        } else {
            String::new()
        }
    }
}

/// A range with both bounds is written as the start fragment, then the end
/// fragment, each bound in the pattern without a zone. The two kinds of range
/// differ in the token that names the time, and in nothing else.
pub proof fn lemma_closed_range_text(start: Timestamp, end: Timestamp)
    ensures
        TimeHistory::ValidTime(Some(start), Some(end)).text() == "&start-valid-time="@
            + formatted_time(start@.seconds, start@.nanos, start@.offset, range_pattern())
            + "&end-valid-time="@ + formatted_time(
            end@.seconds,
            end@.nanos,
            end@.offset,
            range_pattern(),
        ),
        TimeHistory::TransactionTime(Some(start), Some(end)).text() == "&start-transaction-time="@
            + formatted_time(start@.seconds, start@.nanos, start@.offset, range_pattern())
            + "&end-transaction-time="@ + formatted_time(
            end@.seconds,
            end@.nanos,
            end@.offset,
            range_pattern(),
        ),
{
    assert(TimeHistory::ValidTime(Some(start), Some(end)).text() =~= "&start-valid-time="@
        + range_time_text(start@) + "&end-valid-time="@ + range_time_text(end@));
    assert(TimeHistory::TransactionTime(Some(start), Some(end)).text()
        =~= "&start-transaction-time="@ + range_time_text(start@) + "&end-transaction-time="@
        + range_time_text(end@));
}

/// A range that is open on one side is written as the fragment of its other
/// bound alone, and a range open on both sides leaves no text.
pub proof fn lemma_open_range_text(bound: Timestamp)
    ensures
        TimeHistory::ValidTime(Some(bound), None).text() == "&start-valid-time="@
            + range_time_text(bound@),
        TimeHistory::ValidTime(None, Some(bound)).text() == "&end-valid-time="@ + range_time_text(
            bound@,
        ),
        TimeHistory::ValidTime(None, None).text() == Seq::<char>::empty(),
        TimeHistory::TransactionTime(Some(bound), None).text() == "&start-transaction-time="@
            + range_time_text(bound@),
        TimeHistory::TransactionTime(None, Some(bound)).text() == "&end-transaction-time="@
            + range_time_text(bound@),
        TimeHistory::TransactionTime(None, None).text() == Seq::<char>::empty(),
{
    assert(TimeHistory::ValidTime(Some(bound), None).text() =~= "&start-valid-time="@
        + range_time_text(bound@));
    assert(TimeHistory::ValidTime(None, Some(bound)).text() =~= "&end-valid-time="@
        + range_time_text(bound@));
    assert(TimeHistory::ValidTime(None, None).text() =~= Seq::<char>::empty());
    assert(TimeHistory::TransactionTime(Some(bound), None).text() =~= "&start-transaction-time="@
        + range_time_text(bound@));
    assert(TimeHistory::TransactionTime(None, Some(bound)).text() =~= "&end-transaction-time="@
        + range_time_text(bound@));
    assert(TimeHistory::TransactionTime(None, None).text() =~= Seq::<char>::empty());
}

/// Ranges used together are written one after the other, in their order,
/// when there are one or two of them; none, or more than two, leave no text.
pub proof fn lemma_ranges_text(ranges: Vec<TimeHistory>)
    ensures
        ranges@.len() == 0 || ranges@.len() > 2 ==> ranges.text() == Seq::<char>::empty(),
        ranges@.len() == 1 ==> ranges.text() == ranges@[0].text(),
        ranges@.len() == 2 ==> ranges.text() == ranges@[0].text() + ranges@[1].text(),
{
}

} // verus!
