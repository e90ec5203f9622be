//! The machine that runs programs: a top scope that lasts from one program
//! to the next, the source texts it was given, and the errors it was told of.
use vstd::prelude::*;
use vstd::string::StringExecFns;

use crate::ast::ProgramRoot;
use crate::error::{ErrorKind, ErrorView, ValkyrieError};
use crate::scope::{top_frames, Frames, ValkyrieScope};
use crate::semantics::{program_results, program_scope, report, signal_tag};
use crate::state::{outcome_view, value_result_view, EvaluatedState};
use crate::value::{ValkyrieValue, ValueView};

verus! {

/// The contents of what a program reported, result by result.
pub open spec fn results_view(results: Seq<Result<ValkyrieValue, ValkyrieError>>) -> Seq<
    Result<ValueView, ErrorView>,
> {
    Seq::new(results.len(), |i: int| value_result_view(results[i]))
}

impl EvaluatedState {
    /// The keyword of this outcome if it is a signal; empty for a value.
    pub fn tag(&self) -> (name: &'static str)
        ensures
            name@ == signal_tag(self@),
    {
        match self {
            EvaluatedState::Normal(_) => {
                proof {
                    reveal_strlit("");
                }
                assert(""@ =~= Seq::<char>::empty());
                ""
            },
            EvaluatedState::Return(_) => "return",
            EvaluatedState::Raise(_) => "raise",
            EvaluatedState::Break => "break",
            EvaluatedState::Continue => "continue",
            EvaluatedState::Fallthrough { .. } => "fallthrough",
        }
    }
}

/// What a program reports of one statement at its top, given what the
/// statement came to.
pub fn reported(result: Result<EvaluatedState, ValkyrieError>) -> (shown: Option<
    Result<ValkyrieValue, ValkyrieError>,
>)
    ensures
        match report(outcome_view(result)) {
            Some(r) => shown matches Some(s) && value_result_view(s) == r,
            None => shown is None,
        },
{
    match result {
        Err(error) => Some(Err(error)),
        Ok(EvaluatedState::Normal(value)) => {
            if value.is_nothing() {
                None
            } else {
                Some(Ok(value))
            }
        },
        Ok(signal) => Some(
            Err(ValkyrieError::custom(ErrorKind::ControlFlowOutsideContext, signal.tag())),
        ),
    }
}

impl ProgramRoot {
    /// Runs the statements of the program in their order, each in the scope
    /// that the one before left, and collects what they report: one result
    /// for each statement that failed, sent a signal or came to a value
    /// other than nothing. An error ends its statement and no other.
    pub fn execute(&self, scope: &mut ValkyrieScope, limit: u64) -> (results: Vec<
        Result<ValkyrieValue, ValkyrieError>,
    >)
        ensures
            results_view(results@) == program_results(
                self.statements@,
                self.statements@.len(),
                old(scope)@,
                limit as nat,
            ),
            final(scope)@ == program_scope(
                self.statements@,
                self.statements@.len(),
                old(scope)@,
                limit as nat,
            ),
    {
        let mut results: Vec<Result<ValkyrieValue, ValkyrieError>> = Vec::new();
        let mut k: usize = 0;
        assert(results_view(results@) =~= Seq::empty());
        while k < self.statements.len()
            invariant
                k <= self.statements.len(),
                results_view(results@) == program_results(
                    self.statements@,
                    k as nat,
                    old(scope)@,
                    limit as nat,
                ),
                scope@ == program_scope(self.statements@, k as nat, old(scope)@, limit as nat),
            decreases self.statements.len() - k,
        {
            let ghost before = results@;
            match reported(self.statements[k].execute(scope, limit)) {
                Some(result) => {
                    results.push(result);
                    assert(results_view(results@) =~= results_view(before).push(
                        value_result_view(result),
                    ));
                },
                None => {},
            }
            k += 1;
        }
        results
    }
}

/// The cycles a loop may run where nothing else is asked for.
pub const DEFAULT_LOOP_LIMIT: u64 = 1_000_000;

/// The name under which a source text is known to the machine.
#[derive(Clone, Copy, Debug, PartialEq, Eq)]
pub struct FileID {
    pub index: usize,
}

/// A source text and the name it was loaded under.
#[derive(Debug, PartialEq, Eq)]
pub struct SourceText {
    pub name: String,
    pub text: String,
}

/// The machine.
pub struct ValkyrieVM {
    files: Vec<SourceText>,
    top_scope: ValkyrieScope,
    errors: Vec<ValkyrieError>,
    loop_limit: u64,
}

impl ValkyrieVM {
    /// The source texts loaded so far, in the order they came.
    pub closed spec fn files(&self) -> Seq<SourceText> {
        self.files@
    }

    /// The top scope.
    pub closed spec fn scope(&self) -> Frames {
        self.top_scope@
    }

    /// The errors the machine was told of, in the order they came.
    pub closed spec fn errors(&self) -> Seq<ValkyrieError> {
        self.errors@
    }

    /// The cycles a loop may run.
    pub closed spec fn loop_limit(&self) -> u64 {
        self.loop_limit
    }

    /// A machine that holds nothing yet and lets loops run for `limit`
    /// cycles.
    pub fn with_loop_limit(limit: u64) -> (vm: Self)
        ensures
            vm.files().len() == 0,
            vm.errors().len() == 0,
            vm.scope() == top_frames(),
            vm.loop_limit() == limit,
    {
        ValkyrieVM {
            files: Vec::new(),
            top_scope: ValkyrieScope::new(),
            errors: Vec::new(),
            loop_limit: limit,
        }
    }

    /// Keeps a source text under a name and gives the identifier to ask for
    /// it again.
    pub fn load_snippet(&mut self, snippet: &str, name: &str) -> (file: FileID)
        ensures
            final(self).files().len() == old(self).files().len() + 1,
            final(self).files().drop_last() == old(self).files(),
            final(self).files().last().name@ == name@,
            final(self).files().last().text@ == snippet@,
            file.index == old(self).files().len(),
            final(self).scope() == old(self).scope(),
            final(self).errors() == old(self).errors(),
            final(self).loop_limit() == old(self).loop_limit(),
    {
        let index = self.files.len();
        self.files.push(
            SourceText { name: String::from_str(name), text: String::from_str(snippet) },
        );
        assert(self.files@.drop_last() =~= old(self).files@);
        FileID { index }
    }

    /// The source text kept under an identifier, if there is one.
    pub fn source(&self, file: FileID) -> (text: Option<&str>)
        ensures
            match text {
                Some(t) => file.index < self.files().len() && t@ == self.files()[
                    file.index as int
                ].text@,
                None => file.index >= self.files().len(),
            },
    {
        if file.index < self.files.len() {
            Some(self.files[file.index].text.as_str())
        } else {
            None
        }
    }

    /// Takes note of an error.
    pub fn add_error(&mut self, error: ValkyrieError)
        ensures
            final(self).errors() == old(self).errors().push(error),
            final(self).files() == old(self).files(),
            final(self).scope() == old(self).scope(),
            final(self).loop_limit() == old(self).loop_limit(),
    {
        self.errors.push(error);
    }

    /// Hands over the errors noted so far, and forgets them.
    pub fn take_errors(&mut self) -> (noted: Vec<ValkyrieError>)
        ensures
            noted@ == old(self).errors(),
            final(self).errors().len() == 0,
            final(self).files() == old(self).files(),
            final(self).scope() == old(self).scope(),
            final(self).loop_limit() == old(self).loop_limit(),
    {
        let mut noted: Vec<ValkyrieError> = Vec::new();
        core::mem::swap(&mut self.errors, &mut noted);
        noted
    }

    /// Runs a program in the top scope and gives what it reports. What the
    /// program binds at its top stays bound for the next one.
    pub fn execute_script(&mut self, program: &ProgramRoot) -> (results: Vec<
        Result<ValkyrieValue, ValkyrieError>,
    >)
        ensures
            results_view(results@) == program_results(
                program.statements@,
                program.statements@.len(),
                old(self).scope(),
                old(self).loop_limit() as nat,
            ),
            final(self).scope() == program_scope(
                program.statements@,
                program.statements@.len(),
                old(self).scope(),
                old(self).loop_limit() as nat,
            ),
            final(self).files() == old(self).files(),
            final(self).errors() == old(self).errors(),
            final(self).loop_limit() == old(self).loop_limit(),
    {
        program.execute(&mut self.top_scope, self.loop_limit)
    }
}

impl Default for ValkyrieVM {
    fn default() -> (vm: Self)
        ensures
            vm.files().len() == 0,
            vm.errors().len() == 0,
            vm.scope() == top_frames(),
            vm.loop_limit() == DEFAULT_LOOP_LIMIT,
    {
        ValkyrieVM::with_loop_limit(DEFAULT_LOOP_LIMIT)
    }
}

} // verus!
