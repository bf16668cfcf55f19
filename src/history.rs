//! The append-only log of turns that is sent to the model as context.

use vstd::prelude::*;
use crate::content::{Content, ContentView, contents_view};

verus! {

/// An ordered log of turns. Turns are only ever added at the end: no operation
/// removes, reorders or changes a turn once it is in the log.
#[derive(Debug)]
pub struct ConversationHistory {
    contents: Vec<Content>,
}

/// The log after `turn` was appended to `log`.
pub open spec fn appended(log: Seq<ContentView>, turn: ContentView) -> Seq<ContentView> {
    log.push(turn)
}

impl View for ConversationHistory {
    type V = Seq<ContentView>;

    closed spec fn view(&self) -> Seq<ContentView> {
        contents_view(self.contents@)
    }
}

impl ConversationHistory {
    /// A log that starts with the given turns, in order.
    pub fn new(contents: Vec<Content>) -> (r: Self)
        ensures
            r@ == contents_view(contents@),
    {
        ConversationHistory { contents }
    }

    /// Adds one turn at the end of the log.
    pub fn append(&mut self, turn: Content)
        ensures
            final(self)@ == appended(old(self)@, turn@),
    {
        self.contents.push(turn);
        assert(contents_view(self.contents@) =~= contents_view(old(self).contents@).push(turn@));
    }

    /// An independent copy of every turn so far, in order.
    pub fn snapshot(&self) -> (r: Vec<Content>)
        ensures
            contents_view(r@) == self@,
    {
        let mut r: Vec<Content> = Vec::new();
        let mut i: usize = 0;
        while i < self.contents.len()
            invariant
                i <= self.contents@.len(),
                contents_view(r@) == contents_view(self.contents@.take(i as int)),
            decreases self.contents@.len() - i,
        {
            let turn = self.contents[i].clone();
            let ghost before = r@;
            r.push(turn);
            assert(self.contents@.take(i + 1) =~= self.contents@.take(i as int).push(
                self.contents@[i as int],
            ));
            assert(r@ =~= before.push(turn));
            assert(contents_view(r@) =~= contents_view(before).push(turn@));
            i = i + 1;
        }
        assert(self.contents@.take(i as int) =~= self.contents@);
        r
    }

    /// The number of turns so far.
    pub fn len(&self) -> (r: usize)
        ensures
            r == self@.len(),
    {
        self.contents.len()
    }
}

/// A snapshot taken right after `append(turn)` holds `turn` as its last element,
/// after every turn that was there before, unchanged and in the same order.
pub proof fn lemma_snapshot_sees_append(log: Seq<ContentView>, turn: ContentView)
    ensures
        appended(log, turn).len() == log.len() + 1,
        appended(log, turn).last() == turn,
        appended(log, turn).take(log.len() as int) == log,
{
    assert(appended(log, turn).take(log.len() as int) =~= log);
}

} // verus!
