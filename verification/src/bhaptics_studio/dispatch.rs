//! Handing a batch of commands to the playback engine.
//!
//! The commands of one message are independent actions of an operator. They
//! are handed over one at a time and in order; a command that the engine
//! rejects is recorded with the cause, and the next one is handed over all
//! the same. The engine is the caller's: a [`Dispatch`] says which command is
//! next and keeps the account.

use vstd::prelude::*;
use crate::bhaptics_studio::command::{HapticCommand, HapticCommandView};
use crate::bhaptics_studio::tact::wire::views;

verus! {

/// A command that the playback engine rejected, and why.
#[derive(Clone, Debug, PartialEq, Eq)]
pub struct DispatchError {
    pub command: HapticCommand,
    pub cause: String,
}

/// The mathematical value of a [`DispatchError`].
pub struct DispatchErrorView {
    pub command: HapticCommandView,
    pub cause: Seq<char>,
}

impl View for DispatchError {
    type V = DispatchErrorView;

    open spec fn view(&self) -> DispatchErrorView {
        DispatchErrorView { command: self.command@, cause: self.cause@ }
    }
}

/// A batch of commands on its way to the playback engine.
#[derive(Debug)]
pub struct Dispatch {
    commands: Vec<HapticCommand>,
    outcomes: Vec<Option<String>>,
}

/// The mathematical value of a [`Dispatch`]: the commands of the batch, and
/// for each command handed over so far the cause of its rejection, if it was
/// rejected.
pub struct DispatchView {
    pub commands: Seq<HapticCommandView>,
    pub outcomes: Seq<Option<Seq<char>>>,
}

/// The view of a recorded outcome.
pub open spec fn cause_view(outcome: Option<String>) -> Option<Seq<char>> {
    match outcome {
        Some(cause) => Some(cause@),
        None => None,
    }
}

/// The view of what the engine answered.
pub open spec fn answer_view(answer: Result<(), String>) -> Option<Seq<char>> {
    match answer {
        Ok(_) => None,
        Err(cause) => Some(cause@),
    }
}

impl View for Dispatch {
    type V = DispatchView;

    closed spec fn view(&self) -> DispatchView {
        DispatchView {
            commands: views(self.commands@),
            outcomes: self.outcomes@.map_values(|o: Option<String>| cause_view(o)),
        }
    }
}

impl DispatchView {
    /// No more outcomes are on record than there are commands.
    pub open spec fn wf(self) -> bool {
        self.outcomes.len() <= self.commands.len()
    }

    /// Whether every command has been handed over.
    pub open spec fn done(self) -> bool {
        self.outcomes.len() >= self.commands.len()
    }

    /// The account after the engine's answer to the next command: the answer
    /// is on record, whether it was a rejection or not. With every command
    /// handed over already, nothing changes.
    pub open spec fn recorded(self, answer: Option<Seq<char>>) -> DispatchView {
        if self.done() {
            self
        } else {
            DispatchView { commands: self.commands, outcomes: self.outcomes.push(answer) }
        }
    }

    /// The rejections among the first `n` commands, in the order of the batch.
    pub open spec fn failures_among(self, n: int) -> Seq<DispatchErrorView>
        decreases n,
    {
        if n <= 0 {
            Seq::empty()
        } else {
            let before = self.failures_among(n - 1);
            match self.outcomes[n - 1] {
                Some(cause) => before.push(
                    DispatchErrorView { command: self.commands[n - 1], cause },
                ),
                None => before,
            }
        }
    }

    /// The rejections on record, in the order of the batch.
    pub open spec fn failures(self) -> Seq<DispatchErrorView> {
        self.failures_among(self.outcomes.len() as int)
    }
}

/// The rejections among the first commands do not depend on what is on
/// record for later ones.
proof fn lemma_failures_among_prefix(v: DispatchView, w: DispatchView, n: int)
    requires
        v.commands == w.commands,
        0 <= n <= v.outcomes.len(),
        n <= w.outcomes.len(),
        forall|i: int| 0 <= i < n ==> v.outcomes[i] == w.outcomes[i],
    ensures
        v.failures_among(n) == w.failures_among(n),
    decreases n,
{
    if n > 0 {
        lemma_failures_among_prefix(v, w, n - 1);
    }
}

/// A rejection does not cancel what comes after it: whatever the engine
/// answers to a command, the command after it is next, and the rejections on
/// record are those from before, with this one added if it is one.
pub proof fn law_rejection_does_not_cancel(v: DispatchView, answer: Option<Seq<char>>)
    requires
        v.wf(),
        !v.done(),
    ensures
        v.recorded(answer).wf(),
        v.recorded(answer).commands == v.commands,
        v.recorded(answer).outcomes.len() == v.outcomes.len() + 1,
        v.recorded(answer).failures() == match answer {
            Some(cause) => v.failures().push(
                DispatchErrorView { command: v.commands[v.outcomes.len() as int], cause },
            ),
            None => v.failures(),
        },
{
    lemma_failures_among_prefix(v, v.recorded(answer), v.outcomes.len() as int);
}

impl Dispatch {
    #[verifier::type_invariant]
    spec fn well_formed(self) -> bool {
        self.outcomes@.len() <= self.commands@.len()
    }

    /// A batch of which nothing has been handed over yet.
    pub fn new(commands: Vec<HapticCommand>) -> (r: Dispatch)
        ensures
            r@.commands == views(commands@),
            r@.outcomes == Seq::<Option<Seq<char>>>::empty(),
    {
        let r = Dispatch { commands, outcomes: Vec::new() };
        assert(r@.outcomes =~= Seq::<Option<Seq<char>>>::empty());
        r
    }

    /// The command to hand to the engine next, or `None` when every command
    /// has been handed over.
    pub fn next(&self) -> (r: Option<&HapticCommand>)
        ensures
            self@.wf(),
            match r {
                Some(command) => !self@.done() && command@ == self@.commands[
                    self@.outcomes.len() as int
                ],
                None => self@.done(),
            },
    {
        proof {
            use_type_invariant(self);
        }
        let i = self.outcomes.len();
        if i < self.commands.len() {
            Some(&self.commands[i])
        } else {
            None
        }
    }

    /// Records the engine's answer to the command that [`Dispatch::next`]
    /// gave. A rejection does not end the batch: the next command is next.
    pub fn record(&mut self, answer: Result<(), String>)
        ensures
            final(self)@ == old(self)@.recorded(answer_view(answer)),
            final(self)@.wf(),
    {
        proof {
            use_type_invariant(&*self);
        }
        if self.outcomes.len() < self.commands.len() {
            let ghost before = self.outcomes@;
            let outcome = match answer {
                Ok(_) => None,
                Err(cause) => Some(cause),
            };
            let mut outcomes: Vec<Option<String>> = Vec::new();
            core::mem::swap(&mut self.outcomes, &mut outcomes);
            outcomes.push(outcome);
            core::mem::swap(&mut self.outcomes, &mut outcomes);
            assert(self.outcomes@.map_values(|o: Option<String>| cause_view(o))
                =~= before.map_values(|o: Option<String>| cause_view(o)).push(
                answer_view(answer),
            ));
        }
    }

    /// Ends the batch and gives the rejections on record, in the order of
    /// the batch.
    pub fn finish(self) -> (r: Vec<DispatchError>)
        ensures
            views(r@) == self@.failures(),
    {
        proof {
            use_type_invariant(&self);
        }
        let ghost whole = self@;
        let Dispatch { commands, outcomes } = self;
        let mut out: Vec<DispatchError> = Vec::new();
        let mut i: usize = 0;
        assert(views(out@) =~= whole.failures_among(0));
        for command in it: commands.into_iter()
            invariant
                whole.commands == views(commands@),
                whole.outcomes == outcomes@.map_values(|o: Option<String>| cause_view(o)),
                outcomes@.len() <= commands@.len(),
                i == if it.index() <= outcomes@.len() {
                    it.index()
                } else {
                    outcomes@.len() as int
                },
                views(out@) == whole.failures_among(i as int),
        {
            if i < outcomes.len() {
                match &outcomes[i] {
                    Some(cause) => {
                        let ghost before = out@;
                        out.push(DispatchError { command, cause: cause.clone() });
                        assert(views(out@) =~= views(before).push(
                            DispatchErrorView { command: command@, cause: cause@ },
                        ));
                    },
                    None => {},
                }
                i += 1;
            }
        }
        out
    }
}

} // verus!
