//! Transaction actions and the text each one is sent as.

use vstd::prelude::*;
use vstd::string::StringExecFns;
use vstd::string::StrSliceExecFns;
use crate::time::Timestamp;
use crate::time::action_pattern;
use crate::time::action_time_text;
use crate::time::formatted_time;

verus! {

/// An identifier is well formed when it opens with the keyword sigil `:`.
pub open spec fn has_sigil(id: Seq<char>) -> bool {
    id.len() > 0 && id[0] == ':'
}

/// The clause that carries a valid time, with the blank that sets it off from
/// what precedes it; nothing where no valid time is given.
pub open spec fn valid_time_clause(valid_time: Option<Timestamp>) -> Seq<char> {
    match valid_time {
        Some(t) => " #inst \""@ + action_time_text(t@) + "\""@,
        None => Seq::empty(),
    }
}

/// One operation of a transaction. Entities and identifiers are held in their
/// encoded form; the optional timestamp is the valid time of the operation.
#[derive(Debug, PartialEq)]
pub enum Action {
    /// Writes a version of a document.
    Put(String, Option<Timestamp>),
    /// Deletes the document with the given identifier at a valid time.
    Delete(String, Option<Timestamp>),
    /// Removes a document with all of its history, so it takes no valid time.
    Evict(String),
    /// Stops the transaction unless the entity's current state is the given document.
    Match(String, String, Option<Timestamp>),
}

/// Whether `id` opens with the keyword sigil.
pub fn starts_with_sigil(id: &str) -> (found: bool)
    ensures
        found == has_sigil(id@),
{
    if id.is_empty() {
        false
    } else {
        id.get_char(0) == ':'
    }
}

/// Appends the valid-time clause of `valid_time` to `out`.
fn push_valid_time(out: &mut String, valid_time: &Option<Timestamp>)
    ensures
        final(out)@ == old(out)@ + valid_time_clause(*valid_time),
{
    match valid_time {
        Some(t) => {
            let stamp = t.format_action();
            out.append(" #inst \"");
            out.append(stamp.as_str());
            out.append("\"");
            assert(out@ =~= old(out)@ + valid_time_clause(*valid_time));
        },
        None => {
            assert(out@ =~= old(out)@ + valid_time_clause(*valid_time));
        },
    }
}

impl Action {
    /// The text that the transaction log reads for this action.
    ///
    /// An eviction whose identifier lacks the sigil has no text at all: it is
    /// left out of the transaction rather than refused.
    pub open spec fn text(self) -> Seq<char> {
        match self {
            Action::Put(entity, valid_time) => {
                "[:crux.tx/put "@ + entity@ + valid_time_clause(valid_time) + "]"@
            },
            Action::Delete(id, valid_time) => {
                "[:crux.tx/delete "@ + id@ + valid_time_clause(valid_time) + "]"@
            },
            Action::Evict(id) => {
                if has_sigil(id@) {
                    "[:crux.tx/evict "@ + id@ + "]"@
                } else {
                    Seq::empty()
                }
            },
            Action::Match(id, entity, valid_time) => {
                "[:crux.tx/match "@ + id@ + " "@ + entity@ + valid_time_clause(valid_time) + "]"@
            },
        }
    }

    /// A write of the encoded document `action`, with no valid time.
    pub fn put(action: String) -> (made: Action)
        ensures
            made == Action::Put(action, None),
    {
        Action::Put(action, None)
    }

    /// A deletion of the document whose encoded identifier is `id`, with no valid time.
    pub fn delete(id: String) -> (made: Action)
        ensures
            made == Action::Delete(id, None),
    {
        Action::Delete(id, None)
    }

    /// An eviction of the document whose encoded identifier is `id`.
    pub fn evict(id: String) -> (made: Action)
        ensures
            made == Action::Evict(id),
    {
        Action::Evict(id)
    }

    /// A match of the entity `id` against the encoded document `action`, with no valid time.
    pub fn match_doc(id: String, action: String) -> (made: Action)
        ensures
            made == Action::Match(id, action, None),
    {
        Action::Match(id, action, None)
    }

    /// The same action at the valid time `date`, which replaces any earlier
    /// one. An eviction has no valid time and stays as it is.
    pub open spec fn dated(self, date: Timestamp) -> Action {
        match self {
            Action::Put(entity, _) => Action::Put(entity, Some(date)),
            Action::Delete(id, _) => Action::Delete(id, Some(date)),
            Action::Evict(id) => Action::Evict(id),
            Action::Match(id, entity, _) => Action::Match(id, entity, Some(date)),
        }
    }

    /// Sets the valid time of the action to `date`, in place of any earlier
    /// one. An eviction has no valid time and is handed back as it came.
    pub fn with_valid_date(self, date: Timestamp) -> (dated: Action)
        ensures
            dated == self.dated(date),
    {
        match self {
            Action::Put(entity, _) => Action::Put(entity, Some(date)),
            Action::Delete(id, _) => Action::Delete(id, Some(date)),
            Action::Match(id, entity, _) => Action::Match(id, entity, Some(date)),
            action => action,
        }
    }

    /// Writes the action out without giving it up.
    pub fn render(&self) -> (out: String)
        ensures
            out@ == self.text(),
    {
        match self {
            Action::Put(entity, valid_time) => {
                let mut out = String::from_str("[:crux.tx/put ");
                out.append(entity.as_str());
                push_valid_time(&mut out, valid_time);
                out.append("]");
                out
            },
            Action::Delete(id, valid_time) => {
                let mut out = String::from_str("[:crux.tx/delete ");
                out.append(id.as_str());
                push_valid_time(&mut out, valid_time);
                out.append("]");
                out
            },
            Action::Evict(id) => {
                if starts_with_sigil(id.as_str()) {
                    let mut out = String::from_str("[:crux.tx/evict ");
                    out.append(id.as_str());
                    out.append("]");
                    out
                } else {
                    String::new()
                }
            },
            Action::Match(id, entity, valid_time) => {
                let mut out = String::from_str("[:crux.tx/match ");
                out.append(id.as_str());
                out.append(" ");
                out.append(entity.as_str());
                push_valid_time(&mut out, valid_time);
                out.append("]");
                out
            },
        }
    }

    /// Writes the action out as the transaction log reads it.
    pub fn serialize(self) -> (out: String)
        ensures
            out@ == self.text(),
    {
        self.render()
    }
}

/// A match without a valid time is written as the keyword, the identifier
/// and the document, parted by single blanks, within one pair of brackets.
pub proof fn lemma_match_text(id: String, entity: String)
    ensures
        Action::Match(id, entity, None).text() == "[:crux.tx/match "@ + id@ + " "@ + entity@
            + "]"@,
{
    assert(Action::Match(id, entity, None).text() =~= "[:crux.tx/match "@ + id@ + " "@ + entity@
        + "]"@);
}

/// A write at a valid time carries that time in the pattern with the zone,
/// as an `#inst` literal after the document.
pub proof fn lemma_put_text_at_valid_time(entity: String, date: Timestamp)
    ensures
        Action::Put(entity, Some(date)).text() == "[:crux.tx/put "@ + entity@ + " #inst \""@
            + formatted_time(date@.seconds, date@.nanos, date@.offset, action_pattern()) + "\""@
            + "]"@,
{
    assert(Action::Put(entity, Some(date)).text() =~= "[:crux.tx/put "@ + entity@ + " #inst \""@
        + formatted_time(date@.seconds, date@.nanos, date@.offset, action_pattern()) + "\""@
        + "]"@);
}

/// An eviction has a text exactly when its identifier opens with the sigil,
/// and then the text holds that identifier.
pub proof fn lemma_evict_text(id: String)
    ensures
        Action::Evict(id).text().len() > 0 <==> has_sigil(id@),
        has_sigil(id@) ==> Action::Evict(id).text() == "[:crux.tx/evict "@ + id@ + "]"@,
        !has_sigil(id@) ==> Action::Evict(id).text() == Seq::<char>::empty(),
{
}

/// Giving an eviction a valid time changes nothing.
pub proof fn lemma_evict_takes_no_valid_time(id: String, date: Timestamp)
    ensures
        Action::Evict(id).dated(date) == Action::Evict(id),
{
}

/// A second valid time replaces the first.
pub proof fn lemma_last_valid_time_stands(action: Action, first: Timestamp, second: Timestamp)
    ensures
        action.dated(first).dated(second) == action.dated(second),
{
}

} // verus!
