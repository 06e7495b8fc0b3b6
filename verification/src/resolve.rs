//! Looking up the symbol of a field: the candidates are tried in order and
//! the first one found wins.
//!
//! The lookups themselves are made by the caller. It starts with
//! [`SymbolLoad::start`], makes the lookup that a step asks for, and hands
//! the answer to [`SymbolLoad::next`] until a step other than a lookup
//! comes back.

use vstd::prelude::*;
use vstd::utf8::{decode_utf8, valid_utf8};
use crate::error::{error_text, Error, ErrorView};
use crate::text::{lossy_string, lossy_text};
use crate::wrapper::{LoadModel, SymbolLoad};

verus! {

/// What to do next for a field.
#[derive(Copy, Clone, PartialEq, Eq, Structural, Debug)]
pub enum Step {
    /// Look up the candidate at this position.
    Lookup { index: usize },
    /// The candidate at this position was found at this address.
    Resolved { index: usize, address: usize },
    /// No candidate was found, and the field may stay empty.
    Absent,
    /// No candidate was found, and the field needs one; the position is
    /// that of the last candidate tried.
    Exhausted { index: usize },
}

impl Step {
    /// The address that a field holds after this step: that of the
    /// candidate found, or none.
    pub open spec fn found(self) -> Option<usize> {
        match self {
            Step::Resolved { address, .. } => Some(address),
            _ => None,
        }
    }

    /// The address that a field holds after this step.
    pub fn address(self) -> (r: Option<usize>)
        ensures
            r == self.found(),
    {
        match self {
            Step::Resolved { address, .. } => Some(address),
            _ => None,
        }
    }
}

/// The step after the candidate at `index` was answered: found ends the
/// search; not found goes on to the next candidate, or ends the search at
/// the last one, as an empty field where the kind allows it and as a
/// failure where it does not.
pub open spec fn step_after(load: LoadModel, index: usize, found: Option<usize>) -> Step {
    match found {
        Some(address) => Step::Resolved { index, address },
        None => if index + 1 < load.plan.candidates.len() {
            Step::Lookup { index: (index + 1) as usize }
        } else if load.kind.optional() {
            Step::Absent
        } else {
            Step::Exhausted { index }
        },
    }
}

/// The step that ends the search which begins at candidate `from`, when the
/// lookup of candidate `i` is answered by `answers[i]`: the steps are taken
/// one after the other until one is no lookup.
pub open spec fn resolution(load: LoadModel, answers: Seq<Option<usize>>, from: nat) -> Step
    decreases load.plan.candidates.len() - from,
{
    if from >= load.plan.candidates.len() || from >= answers.len() {
        Step::Absent
    } else {
        match step_after(load, from as usize, answers[from as int]) {
            Step::Lookup { .. } => resolution(load, answers, from + 1),
            done => done,
        }
    }
}

/// The candidates that are looked up by the search which begins at
/// candidate `from`, in the order of the lookups.
pub open spec fn attempts(load: LoadModel, answers: Seq<Option<usize>>, from: nat) -> Seq<nat>
    decreases load.plan.candidates.len() - from,
{
    if from >= load.plan.candidates.len() || from >= answers.len() {
        Seq::empty()
    } else {
        match step_after(load, from as usize, answers[from as int]) {
            Step::Lookup { .. } => seq![from] + attempts(load, answers, from + 1),
            _ => seq![from],
        }
    }
}

/// The positions `from`, `from + 1`, .., `to`.
pub open spec fn positions(from: nat, to: nat) -> Seq<nat> {
    Seq::new((to - from + 1) as nat, |k: int| (from + k) as nat)
}

/// A failed search: the field that needed a symbol, and the last candidate tried.
#[derive(Debug, PartialEq, Eq)]
pub struct ResolutionExhausted {
    pub field: String,
    pub symbol: String,
}

/// A record of one lookup of a field whose lookups are logged.
#[derive(Debug, PartialEq, Eq)]
pub enum LogEvent {
    /// At trace level: the candidate found and its address.
    Trace { symbol: String, address: usize },
    /// At warning level: the message of the failed lookup.
    Warn { message: String },
}

/// Model of a record of one lookup.
pub enum LogModel {
    Trace { symbol: Seq<char>, address: usize },
    Warn { message: Seq<char> },
}

impl View for LogEvent {
    type V = LogModel;

    open spec fn view(&self) -> LogModel {
        match self {
            LogEvent::Trace { symbol, address } => LogModel::Trace {
                symbol: symbol@,
                address: *address,
            },
            LogEvent::Warn { message } => LogModel::Warn { message: message@ },
        }
    }
}

/// The record of a lookup, given the candidate as it is shown: none where
/// the field is not logged, a trace of the address where the candidate was
/// found, a warning that it was not found otherwise.
pub open spec fn event_of(load: LoadModel, shown: Seq<char>, found: Option<usize>) -> Option<
    LogModel,
> {
    if !load.plan.logger {
        None
    } else {
        match found {
            Some(address) => Some(LogModel::Trace { symbol: shown, address }),
            None => Some(LogModel::Warn { message: error_text(ErrorView::SymbolNotFound(shown)) }),
        }
    }
}

/// The model of an optional record.
pub open spec fn event_model(event: Option<LogEvent>) -> Option<LogModel> {
    match event {
        Some(e) => Some(e@),
        None => None,
    }
}

impl ResolutionExhausted {
    /// The error of the lookup that failed last.
    pub fn into_error(self) -> (r: Error)
        ensures
            r@ == ErrorView::SymbolNotFound(self.symbol@),
    {
        Error::SymbolNotFound(self.symbol)
    }
}

impl SymbolLoad {
    /// The first step: look up the first candidate.
    pub fn start(&self) -> (r: Step)
        ensures
            r == (Step::Lookup { index: 0 }),
            self@.plan.candidates.len() > 0,
    {
        let _candidates = self.plan.len();
        Step::Lookup { index: 0 }
    }

    /// The step after the candidate at `index` was answered.
    pub fn next(&self, index: usize, found: Option<usize>) -> (r: Step)
        requires
            index < self@.plan.candidates.len(),
        ensures
            r == step_after(self@, index, found),
    {
        match found {
            Some(address) => Step::Resolved { index, address },
            None => {
                let n = self.plan.len();
                if index + 1 < n {
                    Step::Lookup { index: index + 1 }
                } else if self.kind.is_optional() {
                    Step::Absent
                } else {
                    Step::Exhausted { index }
                }
            },
        }
    }

    /// The failure of a search that ended at the candidate shown.
    pub fn exhausted_as(&self, shown: &str) -> (r: ResolutionExhausted)
        ensures
            r.field@ == self@.ident,
            r.symbol@ == shown@,
    {
        ResolutionExhausted { field: self.ident.clone(), symbol: shown.to_owned() }
    }

    /// The failure of a search that ended at the candidate at `index`: it
    /// names the field and shows the candidate.
    pub fn exhausted(&self, index: usize) -> (r: ResolutionExhausted)
        requires
            index < self@.plan.candidates.len(),
        ensures
            r.field@ == self@.ident,
            r.symbol@ == lossy_text(self@.plan.candidates[index as int].name),
            valid_utf8(self@.plan.candidates[index as int].name) ==> r.symbol@ == decode_utf8(
                self@.plan.candidates[index as int].name,
            ),
    {
        let shown = lossy_string(self.plan.candidate(index).name.as_slice());
        self.exhausted_as(shown.as_str())
    }

    /// What the field is loaded with once the search has ended: the
    /// address found, nothing for a field left empty, or the failure of the
    /// search, which names the field and shows the last candidate tried.
    pub fn finish(&self, step: Step) -> (r: Result<Option<usize>, ResolutionExhausted>)
        requires
            !(step is Lookup),
            step matches Step::Exhausted { index } ==> index < self@.plan.candidates.len(),
        ensures
            match r {
                Ok(loaded) => !(step is Exhausted) && loaded == step.found(),
                Err(failure) => step matches Step::Exhausted { index } && failure.field@
                    == self@.ident && failure.symbol@ == lossy_text(
                    self@.plan.candidates[index as int].name,
                ) && (valid_utf8(self@.plan.candidates[index as int].name) ==> failure.symbol@
                    == decode_utf8(self@.plan.candidates[index as int].name)),
            },
    {
        match step {
            Step::Exhausted { index } => Err(self.exhausted(index)),
            done => Ok(done.address()),
        }
    }

    /// The record of a lookup, given the candidate as it is shown.
    pub fn log_event_as(&self, shown: &str, found: Option<usize>) -> (r: Option<LogEvent>)
        ensures
            event_model(r) == event_of(self@, shown@, found),
    {
        if !self.plan.logger() {
            None
        } else {
            match found {
                Some(address) => Some(LogEvent::Trace { symbol: shown.to_owned(), address }),
                None => {
                    let error = Error::SymbolNotFound(shown.to_owned());
                    Some(LogEvent::Warn { message: error.message() })
                },
            }
        }
    }

    /// The record of the lookup of the candidate at `index`.
    pub fn log_event(&self, index: usize, found: Option<usize>) -> (r: Option<LogEvent>)
        requires
            index < self@.plan.candidates.len(),
        ensures
            event_model(r) == event_of(
                self@,
                lossy_text(self@.plan.candidates[index as int].name),
                found,
            ),
            valid_utf8(self@.plan.candidates[index as int].name) ==> event_model(r) == event_of(
                self@,
                decode_utf8(self@.plan.candidates[index as int].name),
                found,
            ),
    {
        let shown = lossy_string(self.plan.candidate(index).name.as_slice());
        self.log_event_as(shown.as_str(), found)
    }
}

/// A step never asks for a candidate that the plan does not hold.
pub proof fn lookup_stays_in_plan(load: LoadModel, index: usize, found: Option<usize>)
    requires
        load.plan.candidates.len() <= usize::MAX,
        index < load.plan.candidates.len(),
    ensures
        step_after(load, index, found) matches Step::Lookup { index: following } ==> following
            == index + 1 && following < load.plan.candidates.len(),
        found is Some ==> step_after(load, index, found) == (Step::Resolved {
            index,
            address: found->0,
        }),
{
}

/// A search stops at the first candidate that is found: no candidate after
/// it is looked up, and every candidate before it was looked up, in order.
pub proof fn first_found_wins(load: LoadModel, answers: Seq<Option<usize>>, from: nat, i: nat)
    requires
        load.plan.candidates.len() <= usize::MAX,
        answers.len() == load.plan.candidates.len(),
        from <= i < answers.len(),
        answers[i as int] is Some,
        forall|j: int| from <= j < i ==> answers[j] is None,
    ensures
        resolution(load, answers, from) == (Step::Resolved {
            index: i as usize,
            address: answers[i as int]->0,
        }),
        attempts(load, answers, from) == positions(from, i),
    decreases i - from,
{
    if from < i {
        first_found_wins(load, answers, from + 1, i);
    }
}

/// A search in which no candidate is found looks up every candidate in
/// order. It leaves a field of an optional kind empty, without an error;
/// for a field of any other kind it fails at the last candidate.
pub proof fn nothing_found(load: LoadModel, answers: Seq<Option<usize>>, from: nat)
    requires
        load.plan.candidates.len() <= usize::MAX,
        answers.len() == load.plan.candidates.len(),
        from < answers.len(),
        forall|j: int| from <= j < answers.len() ==> answers[j] is None,
    ensures
        load.kind.optional() ==> resolution(load, answers, from) == Step::Absent
            && resolution(load, answers, from).found() is None,
        !load.kind.optional() ==> resolution(load, answers, from) == (Step::Exhausted {
            index: (answers.len() - 1) as usize,
        }),
        attempts(load, answers, from) == positions(from, (answers.len() - 1) as nat),
    decreases answers.len() - from,
{
    if from + 1 < answers.len() {
        nothing_found(load, answers, from + 1);
    }
}

} // verus!
