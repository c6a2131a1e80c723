//! A transaction under construction: actions appended one by one, kept in the
//! order in which they were added.

use vstd::prelude::*;
use vstd::string::StringExecFns;
use crate::action::Action;
use crate::time::Timestamp;

verus! {

/// The texts of `actions`, one after another with nothing between them.
pub open spec fn actions_text(actions: Seq<Action>) -> Seq<char>
    decreases actions.len(),
{
    if actions.len() == 0 {
        Seq::empty()
    } else {
        actions_text(actions.drop_last()) + actions.last().text()
    }
}

/// The body of a transaction: the actions' texts in order, within one pair of brackets.
pub open spec fn transaction_text(actions: Seq<Action>) -> Seq<char> {
    "["@ + actions_text(actions) + "]"@
}

/// Writes `actions` out as the body of one transaction.
pub fn transaction_body(actions: &Vec<Action>) -> (out: String)
    ensures
        out@ == transaction_text(actions@),
{
    let mut out = String::from_str("[");
    let mut i: usize = 0;
    while i < actions.len()
        invariant
            i <= actions.len(),
            out@ == "["@ + actions_text(actions@.take(i as int)),
        decreases actions.len() - i,
    {
        let one = actions[i].render();
        out.append(one.as_str());
        proof {
            let upto = actions@.take(i + 1);
            assert(upto.drop_last() =~= actions@.take(i as int));
            assert(upto.last() == actions@[i as int]);
            assert(out@ =~= "["@ + actions_text(upto));
        }
        i = i + 1;
    }
    assert(actions@.take(i as int) =~= actions@);
    out.append("]");
    out
}

/// Accumulates the actions of one transaction.
pub struct Actions {
    actions: Vec<Action>,
}

impl View for Actions {
    type V = Seq<Action>;

    closed spec fn view(&self) -> Seq<Action> {
        self.actions@
    }
}

impl Actions {
    /// A transaction with no action in it yet.
    pub fn new() -> (fresh: Actions)
        ensures
            fresh@ == Seq::<Action>::empty(),
    {
        Actions { actions: Vec::new() }
    }

    /// Appends a write of the encoded document `action`.
    pub fn append_put(self, action: String) -> (grown: Actions)
        ensures
            grown@ == self@.push(Action::Put(action, None)),
    {
        let mut grown = self;
        grown.actions.push(Action::put(action));
        grown
    }

    /// Appends a write of the encoded document `action` at the valid time `date`.
    pub fn append_put_timed(self, action: String, date: Timestamp) -> (grown: Actions)
        ensures
            grown@ == self@.push(Action::Put(action, Some(date))),
    {
        let mut grown = self;
        grown.actions.push(Action::put(action).with_valid_date(date));
        grown
    }

    /// Appends a deletion of the document whose encoded identifier is `id`.
    pub fn append_delete(self, id: String) -> (grown: Actions)
        ensures
            grown@ == self@.push(Action::Delete(id, None)),
    {
        let mut grown = self;
        grown.actions.push(Action::delete(id));
        grown
    }

    /// Appends a deletion of the document `id` at the valid time `date`.
    pub fn append_delete_timed(self, id: String, date: Timestamp) -> (grown: Actions)
        ensures
            grown@ == self@.push(Action::Delete(id, Some(date))),
    {
        let mut grown = self;
        grown.actions.push(Action::delete(id).with_valid_date(date));
        grown
    }

    /// Appends an eviction of the document whose encoded identifier is `id`.
    pub fn append_evict(self, id: String) -> (grown: Actions)
        ensures
            grown@ == self@.push(Action::Evict(id)),
    {
        let mut grown = self;
        grown.actions.push(Action::evict(id));
        grown
    }

    /// Appends a match of the entity `id` against the encoded document `action`.
    pub fn append_match_doc(self, id: String, action: String) -> (grown: Actions)
        ensures
            grown@ == self@.push(Action::Match(id, action, None)),
    {
        let mut grown = self;
        grown.actions.push(Action::match_doc(id, action));
        grown
    }

    /// Appends a match of the entity `id` against `action` at the valid time `date`.
    pub fn append_match_doc_timed(self, id: String, action: String, date: Timestamp) -> (grown: Actions)
        ensures
            grown@ == self@.push(Action::Match(id, action, Some(date))),
    {
        let mut grown = self;
        grown.actions.push(Action::match_doc(id, action).with_valid_date(date));
        grown
    }

    /// Ends the construction and hands the actions over, first appended first.
    pub fn build(self) -> (actions: Vec<Action>)
        ensures
            actions@ == self@,
    {
        self.actions
    }
}

/// Appending puts the new action last and leaves the earlier ones where they
/// were, so actions come out of a batch in the order in which they went in.
pub proof fn lemma_append_keeps_order(before: Seq<Action>, action: Action)
    ensures
        before.push(action).len() == before.len() + 1,
        before.push(action).last() == action,
        forall|i: int| 0 <= i < before.len() ==> before.push(action)[i] == before[i],
        Seq::<Action>::empty().push(action) == seq![action],
{
    assert(Seq::<Action>::empty().push(action) =~= seq![action]);
}

/// The text of a batch grows with it: an appended action adds its own text
/// at the end and changes nothing before it.
pub proof fn lemma_actions_text_push(before: Seq<Action>, action: Action)
    ensures
        actions_text(before.push(action)) == actions_text(before) + action.text(),
{
    assert(before.push(action).drop_last() =~= before);
}

} // verus!
