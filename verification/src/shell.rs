//! The course of one run of the program.
//!
//! A run goes through three phases, each once and in this order: nothing is
//! built yet, the schema is built, the arguments are dispatched. A step that
//! is asked for out of turn is refused and changes nothing.

use crate::catalog::Translator;
use crate::cli::{matched_values, names_no_subcommand, outcome_of, parse, texts, ReplyView};
use crate::dispatch::{plan, plan_of, Action, ActionView, ExitView};
use crate::schema::{build_schema, schema_of, ArgumentSchema, SchemaView};
use vstd::prelude::*;

verus! {

/// Where a run stands.
#[derive(Debug, Clone, Copy, PartialEq, Eq, Structural)]
pub enum Phase {
    /// No schema was built yet.
    Uninitialized,
    /// The schema is built; the arguments are not read yet.
    SchemaBuilt,
    /// The arguments were read and what follows was decided.
    Dispatched,
}

enum State {
    Uninitialized,
    SchemaBuilt(ArgumentSchema),
    Dispatched(ArgumentSchema),
}

/// One run of the program.
pub struct Shell {
    state: State,
}

/// The place of a phase in the course of a run.
pub open spec fn rank(phase: Phase) -> nat {
    match phase {
        Phase::Uninitialized => 0,
        Phase::SchemaBuilt => 1,
        Phase::Dispatched => 2,
    }
}

/// The one step that leads out of a phase, if there is any.
pub open spec fn next_phase(phase: Phase) -> Option<Phase> {
    match phase {
        Phase::Uninitialized => Some(Phase::SchemaBuilt),
        Phase::SchemaBuilt => Some(Phase::Dispatched),
        Phase::Dispatched => None,
    }
}

/// Every step leads to the phase that comes next in the course of a run, so
/// no phase is entered twice, and nothing leads out of the last one.
pub proof fn phases_are_sequential(phase: Phase)
    ensures
        next_phase(phase) matches Some(next) ==> rank(next) == rank(phase) + 1,
        next_phase(phase) is None <==> phase == Phase::Dispatched,
{
}

/// `action` is what follows from reading `arguments` against `schema`.
///
/// For arguments that name no sub-command of this program the run ends with
/// [`ExitOutcome::NoSubcommandMatched`](crate::dispatch::ExitOutcome). For
/// arguments that the parser accepts, the action is the plan for the values
/// that it matched. Where the parser stops with a message, the run ends: the
/// message is shown, or it is the error in the arguments.
pub open spec fn follows(action: ActionView, schema: SchemaView, arguments: Seq<Seq<char>>) -> bool {
    if names_no_subcommand(arguments) {
        action == ActionView::Finish(ExitView::NoSubcommandMatched)
    } else {
        match matched_values(schema, seq![schema.bin_name] + arguments) {
            Some(values) => action == plan_of(outcome_of(ReplyView::Matched(values))),
            None => action matches ActionView::Finish(ExitView::Shown(_))
                || action matches ActionView::Finish(ExitView::ArgumentParseError(_)),
        }
    }
}

impl Shell {
    /// The phase of the run.
    pub closed spec fn phase_of(&self) -> Phase {
        match self.state {
            State::Uninitialized => Phase::Uninitialized,
            State::SchemaBuilt(_) => Phase::SchemaBuilt,
            State::Dispatched(_) => Phase::Dispatched,
        }
    }

    /// The schema of the run, once it is built.
    pub closed spec fn schema_of(&self) -> Option<SchemaView> {
        match self.state {
            State::Uninitialized => None,
            State::SchemaBuilt(schema) => Some(schema@),
            State::Dispatched(schema) => Some(schema@),
        }
    }

    /// A run in which nothing has happened yet.
    pub fn new() -> (r: Shell)
        ensures
            r.phase_of() == Phase::Uninitialized,
            r.schema_of() is None,
    {
        Shell { state: State::Uninitialized }
    }

    /// The phase of the run.
    pub fn phase(&self) -> (r: Phase)
        ensures
            r == self.phase_of(),
    {
        match &self.state {
            State::Uninitialized => Phase::Uninitialized,
            State::SchemaBuilt(_) => Phase::SchemaBuilt,
            State::Dispatched(_) => Phase::Dispatched,
        }
    }

    /// The schema of the run, once it is built.
    pub fn schema(&self) -> (r: Option<&ArgumentSchema>)
        ensures
            match r {
                Some(schema) => self.schema_of() == Some(schema@),
                None => self.schema_of() is None,
            },
    {
        match &self.state {
            State::Uninitialized => None,
            State::SchemaBuilt(schema) => Some(schema),
            State::Dispatched(schema) => Some(schema),
        }
    }

    /// Builds the schema with the descriptions that `translator` gives.
    ///
    /// This is the first step of a run, and it is taken once: the answer is
    /// `true` where the run had not begun, and the schema is then built.
    /// In any other phase the answer is `false` and the run stays as it is.
    pub fn build_schema(&mut self, translator: &Translator, version: &str, author: &str) -> (r:
        bool)
        ensures
            r == (old(self).phase_of() == Phase::Uninitialized),
            r ==> next_phase(old(self).phase_of()) == Some(final(self).phase_of()),
            r ==> final(self).schema_of() == Some(schema_of(translator@, version@, author@)),
            !r ==> final(self).phase_of() == old(self).phase_of() && final(self).schema_of() == old(
                self,
            ).schema_of(),
    {
        match &self.state {
            State::Uninitialized => {
                self.state = State::SchemaBuilt(build_schema(translator, version, author));
                true
            },
            _ => false,
        }
    }

    /// Reads the arguments against the schema and decides what follows.
    ///
    /// This is the second step of a run, and it is taken once: the answer
    /// is an action where the schema was built and nothing dispatched yet.
    /// In any other phase the answer is `None` and the run stays as it is.
    /// The action is what [`plan`] makes of what [`parse`] returns, as
    /// [`follows`] says it.
    pub fn dispatch(&mut self, arguments: &Vec<String>) -> (r: Option<Action>)
        ensures
            r is Some <==> old(self).phase_of() == Phase::SchemaBuilt,
            r is Some ==> next_phase(old(self).phase_of()) == Some(final(self).phase_of()),
            r is None ==> final(self).phase_of() == old(self).phase_of(),
            final(self).schema_of() == old(self).schema_of(),
            r matches Some(action) ==> (old(self).schema_of() matches Some(schema) && follows(
                action@,
                schema,
                texts(arguments@),
            )),
    {
        let mut state = State::Uninitialized;
        std::mem::swap(&mut self.state, &mut state);
        match state {
            State::SchemaBuilt(schema) => {
                let action = plan(parse(&schema, arguments));
                self.state = State::Dispatched(schema);
                Some(action)
            },
            other => {
                self.state = other;
                None
            },
        }
    }
}

} // verus!
