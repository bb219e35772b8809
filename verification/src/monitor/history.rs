//! The commands that were sent from a window.
use vstd::prelude::*;
use vstd::string::*;

use crate::text;
use crate::text::same;

verus! {

/// The commands that were sent, and where the user is while going through them.
#[derive(Debug)]
pub struct SendHistory {
    entries: Vec<String>,
    index: Option<usize>,
    draft: String,
}

/// The send history, as a value of the model.
#[verifier::ext_equal]
pub struct HistoryView {
    pub entries: Seq<Seq<char>>,
    /// The entry that is shown in the input field, if one is.
    pub index: Option<int>,
    /// What stood in the input field before an entry was shown.
    pub draft: Seq<char>,
}

impl View for SendHistory {
    type V = HistoryView;

    closed spec fn view(&self) -> HistoryView {
        HistoryView {
            entries: text::texts(self.entries@),
            index: match self.index {
                Some(i) => Some(i as int),
                None => None,
            },
            draft: self.draft@,
        }
    }
}

impl HistoryView {
    /// Whether the entry that is shown is one.
    pub open spec fn wf(self) -> bool {
        self.index matches Some(i) ==> 0 <= i < self.entries.len()
    }

    /// One entry back: the history and the input field after it.
    pub open spec fn back(self, input: Seq<char>) -> (HistoryView, Seq<char>) {
        if self.entries.len() == 0 {
            (self, input)
        } else {
            match self.index {
                None => (
                    HistoryView {
                        index: Some(self.entries.len() - 1),
                        draft: input,
                        ..self
                    },
                    self.entries.last(),
                ),
                Some(i) => if i == 0 {
                    (self, input)
                } else {
                    (HistoryView { index: Some(i - 1), ..self }, self.entries[i - 1])
                },
            }
        }
    }

    /// One entry forward: the history and the input field after it.
    pub open spec fn forward(self, input: Seq<char>) -> (HistoryView, Seq<char>) {
        match self.index {
            None => (self, input),
            Some(i) => if i + 1 >= self.entries.len() {
                (HistoryView { index: None, ..self }, self.draft)
            } else {
                (HistoryView { index: Some(i + 1), ..self }, self.entries[i + 1])
            },
        }
    }

    /// Whether a command is new: the last one was another.
    pub open spec fn is_new(self, command: Seq<char>) -> bool {
        self.entries.len() == 0 || self.entries.last() != command
    }

    /// The history after a command was sent.
    pub open spec fn recorded(self, command: Seq<char>) -> HistoryView {
        HistoryView {
            entries: if self.is_new(command) {
                self.entries.push(command)
            } else {
                self.entries
            },
            index: None,
            draft: Seq::empty(),
        }
    }
}

impl SendHistory {
    #[verifier::type_invariant]
    spec fn sound(self) -> bool {
        self.index matches Some(i) ==> i < self.entries@.len()
    }

    /// The history of earlier sessions.
    pub fn new(entries: Vec<String>) -> (r: SendHistory)
        ensures
            r@ == (HistoryView {
                entries: text::texts(entries@),
                index: None,
                draft: Seq::empty(),
            }),
            r@.wf(),
    {
        let r = SendHistory { entries, index: None, draft: String::new() };
        assert(r@ =~= (HistoryView {
            entries: text::texts(entries@),
            index: None,
            draft: Seq::empty(),
        }));
        r
    }

    /// Show the entry in front of the one that is shown; the input field is kept
    /// as a draft when the first entry replaces it.
    pub fn history_up(&mut self, input: &mut String)
        ensures
            (final(self)@, final(input)@) == old(self)@.back(old(input)@),
            final(self)@.wf(),
    {
        proof {
            use_type_invariant(&*self);
        }
        let ghost before = self@;
        if self.entries.len() == 0 {
            return;
        }
        match self.index {
            None => {
                let last = self.entries.len() - 1;
                self.draft = input.clone();
                self.index = Some(last);
                *input = self.entries[last].clone();
                assert(self@ =~= before.back(old(input)@).0);
            },
            Some(i) => {
                if i > 0 {
                    self.index = Some(i - 1);
                    *input = self.entries[i - 1].clone();
                    assert(self@ =~= before.back(old(input)@).0);
                }
            },
        }
    }

    /// Show the entry behind the one that is shown; behind the last one comes
    /// the draft.
    pub fn history_down(&mut self, input: &mut String)
        ensures
            (final(self)@, final(input)@) == old(self)@.forward(old(input)@),
            final(self)@.wf(),
    {
        proof {
            use_type_invariant(&*self);
        }
        let ghost before = self@;
        if let Some(i) = self.index {
            let total = self.entries.len();
            if i + 1 >= total {
                self.index = None;
                *input = self.draft.clone();
            } else {
                self.index = Some(i + 1);
                *input = self.entries[i + 1].clone();
            }
            assert(self@ =~= before.forward(old(input)@).0);
        }
    }

    /// Note that a command was sent, and tell whether it is a new one.
    pub fn record(&mut self, command: &str) -> (r: bool)
        ensures
            final(self)@ == old(self)@.recorded(command@),
            r == old(self)@.is_new(command@),
    {
        proof {
            use_type_invariant(&*self);
        }
        let ghost before = self@;
        let total = self.entries.len();
        let new = total == 0 || !same(self.entries[total - 1].as_str(), command);
        self.index = None;
        self.draft = String::new();
        if new {
            let mut entries: Vec<String> = Vec::new();
            std::mem::swap(&mut entries, &mut self.entries);
            let ghost earlier = entries@;
            entries.push(command.to_owned());
            assert(text::texts(entries@) =~= text::texts(earlier).push(command@));
            self.entries = entries;
        }
        assert(self@ =~= before.recorded(command@));
        new
    }
}

/// Going back into the history and forward again brings the draft back.
pub proof fn draft_comes_back(h: HistoryView, input: Seq<char>)
    requires
        h.wf(),
        h.index is None,
    ensures
        ({
            let (back, shown) = h.back(input);
            let (forward, field) = back.forward(shown);
            field == input && forward.index is None && forward.entries == h.entries
        }),
{
}

/// A step forward undoes a step back, inside the history.
pub proof fn forward_undoes_back(h: HistoryView, input: Seq<char>)
    requires
        h.wf(),
        h.index matches Some(i) && i > 0 && input == h.entries[i],
    ensures
        ({
            let (back, shown) = h.back(input);
            back.forward(shown) == (h, input)
        }),
{
    let (back, shown) = h.back(input);
    assert(back.forward(shown).0 =~= h);
}

/// A command that repeats the last one is not recorded twice.
pub proof fn repeated_command_is_recorded_once(h: HistoryView, command: Seq<char>)
    ensures
        h.recorded(command).recorded(command) == h.recorded(command),
{
    assert(h.recorded(command).recorded(command) =~= h.recorded(command));
}

} // verus!
