//! Running scripts against the players: what each outcome means, and which scripts are compiled.

use vstd::prelude::*;

use crate::error::{ErrorModel, MediaSourceError};
use crate::text::joined;

verus! {

/// What the scripting component says of a failure.
#[derive(Debug)]
pub enum ScriptFailure {
    /// Nothing at all.
    Silent,
    /// Something, but no message.
    NoMessage,
    /// A message.
    Message(String),
}

/// The text that a failure is reported with.
pub open spec fn failure_text(failure: ScriptFailure) -> Seq<char> {
    match failure {
        ScriptFailure::Silent => "(no error information)"@,
        ScriptFailure::NoMessage => "(unknown OSA error)"@,
        ScriptFailure::Message(message) => message@,
    }
}

/// The message of a failure, or a placeholder where there is none.
pub fn error_message(failure: ScriptFailure) -> (r: String)
    ensures
        r@ == failure_text(failure),
{
    match failure {
        ScriptFailure::Silent => "(no error information)".to_owned(),
        ScriptFailure::NoMessage => "(unknown OSA error)".to_owned(),
        ScriptFailure::Message(message) => message,
    }
}

/// How the compilation of a script went.
#[derive(Debug)]
pub enum CompileOutcome {
    /// The scripting language is not installed.
    NoLanguage,
    /// No script object could be made.
    NoScript,
    /// The script was refused.
    Refused(ScriptFailure),
    /// The script can be executed.
    Compiled,
}

/// The error of a compilation that failed.
pub open spec fn refusal_of(outcome: CompileOutcome) -> Option<ErrorModel> {
    match outcome {
        CompileOutcome::NoLanguage => Some(
            ErrorModel::InternalError("JavaScript OSA language is unavailable"@),
        ),
        CompileOutcome::NoScript => Some(
            ErrorModel::InternalError("OSAScript initialization failed"@),
        ),
        CompileOutcome::Refused(failure) => Some(
            ErrorModel::InternalError("OSA script compilation failed: "@ + failure_text(failure)),
        ),
        CompileOutcome::Compiled => None,
    }
}

/// Whether a script was compiled, or the error that it was not.
pub fn compile(outcome: CompileOutcome) -> (r: Result<(), MediaSourceError>)
    ensures
        match r {
            Ok(_) => refusal_of(outcome) is None,
            Err(e) => refusal_of(outcome) == Some(e@),
        },
{
    match outcome {
        CompileOutcome::NoLanguage => Err(
            MediaSourceError::InternalError("JavaScript OSA language is unavailable".to_owned()),
        ),
        CompileOutcome::NoScript => Err(
            MediaSourceError::InternalError("OSAScript initialization failed".to_owned()),
        ),
        CompileOutcome::Refused(failure) => Err(
            MediaSourceError::InternalError(
                joined("OSA script compilation failed: ", error_message(failure).as_str()),
            ),
        ),
        CompileOutcome::Compiled => Ok(()),
    }
}

/// How the execution of a compiled script went.
#[derive(Debug)]
pub enum RunOutcome {
    /// The script failed.
    Failed(ScriptFailure),
    /// The script returned something that is no text.
    NoText,
    /// The script returned a text.
    Text(String),
}

/// What the execution of a script gives.
pub open spec fn run_result(outcome: RunOutcome) -> Result<Seq<char>, ErrorModel> {
    match outcome {
        RunOutcome::Failed(failure) => Err(
            ErrorModel::InternalError("OSA script execution failed: "@ + failure_text(failure)),
        ),
        RunOutcome::NoText => Err(
            ErrorModel::InternalError("OSA script returned no string value"@),
        ),
        RunOutcome::Text(text) => Ok(text@),
    }
}

/// What an outcome says.
pub open spec fn text_outcome(r: Result<String, MediaSourceError>) -> Result<
    Seq<char>,
    ErrorModel,
> {
    match r {
        Ok(text) => Ok(text@),
        Err(e) => Err(e@),
    }
}

/// The text that a script returned, or the error that it did not.
pub fn run(outcome: RunOutcome) -> (r: Result<String, MediaSourceError>)
    ensures
        text_outcome(r) == run_result(outcome),
{
    match outcome {
        RunOutcome::Failed(failure) => Err(
            MediaSourceError::InternalError(
                joined("OSA script execution failed: ", error_message(failure).as_str()),
            ),
        ),
        RunOutcome::NoText => Err(
            MediaSourceError::InternalError("OSA script returned no string value".to_owned()),
        ),
        RunOutcome::Text(text) => Ok(text),
    }
}

/// How a request to the worker that runs scripts went.
pub enum RequestOutcome {
    /// The worker does not take requests any more.
    WorkerGone,
    /// The worker took the request and never answered.
    Unanswered,
    /// The worker answered.
    Answered(Result<String, MediaSourceError>),
}

/// What a request to the worker gives.
pub open spec fn request_result(outcome: RequestOutcome) -> Result<Seq<char>, ErrorModel> {
    match outcome {
        RequestOutcome::WorkerGone => Err(
            ErrorModel::InternalError("OSA worker thread is not running"@),
        ),
        RequestOutcome::Unanswered => Err(
            ErrorModel::InternalError("OSA worker dropped the request"@),
        ),
        RequestOutcome::Answered(answer) => text_outcome(answer),
    }
}

/// The text that a requested script returned, or the error that it did not.
pub fn execute(outcome: RequestOutcome) -> (r: Result<String, MediaSourceError>)
    ensures
        text_outcome(r) == request_result(outcome),
{
    match outcome {
        RequestOutcome::WorkerGone => Err(
            MediaSourceError::InternalError("OSA worker thread is not running".to_owned()),
        ),
        RequestOutcome::Unanswered => Err(
            MediaSourceError::InternalError("OSA worker dropped the request".to_owned()),
        ),
        RequestOutcome::Answered(answer) => answer,
    }
}

/// Which scripts the worker has compiled, by the place of each among the compiled ones.
#[derive(Debug)]
pub struct ScriptCache {
    sources: Vec<String>,
}

impl View for ScriptCache {
    type V = Seq<Seq<char>>;

    closed spec fn view(&self) -> Seq<Seq<char>> {
        self.sources.deep_view()
    }
}

/// The place of a script among the compiled ones.
pub open spec fn slot_of(sources: Seq<Seq<char>>, source: Seq<char>) -> Option<int> {
    sources.index_of_first(source)
}

/// The compiled scripts after one more compilation of a script.
pub open spec fn cached_after(
    sources: Seq<Seq<char>>,
    source: Seq<char>,
    outcome: CompileOutcome,
) -> Seq<Seq<char>> {
    if refusal_of(outcome) is None && !sources.contains(source) {
        sources.push(source)
    } else {
        sources
    }
}

impl ScriptCache {
    /// A cache without scripts.
    pub fn new() -> (r: ScriptCache)
        ensures
            r@ == Seq::<Seq<char>>::empty(),
    {
        let r = ScriptCache { sources: Vec::new() };
        assert(r@ =~= Seq::<Seq<char>>::empty());
        r
    }

    /// The place of a script among the compiled ones, if it is one of them.
    pub fn find(&self, source: &str) -> (r: Option<usize>)
        ensures
            match r {
                Some(slot) => slot_of(self@, source@) == Some(slot as int),
                None => slot_of(self@, source@) is None,
            },
    {
        let wanted = source.to_owned();
        let mut i: usize = 0;
        while i < self.sources.len()
            invariant
                i <= self.sources.len(),
                wanted@ == source@,
                forall|k: int| 0 <= k < i ==> self@[k] != source@,
            decreases self.sources.len() - i,
        {
            if self.sources[i] == wanted {
                proof {
                    assert(self@[i as int] == source@);
                    self@.index_of_first_ensures(source@);
                }
                return Some(i);
            }
            assert(self@[i as int] != source@);
            i += 1;
        }
        proof {
            self@.index_of_first_ensures(source@);
        }
        None
    }

    /// Notes how the compilation of a script went, and gives the script's place among the
    /// compiled ones. A failure is not kept, so that the script is compiled again when it is next
    /// asked for.
    pub fn compiled(&mut self, source: &str, outcome: CompileOutcome) -> (r: Result<
        usize,
        MediaSourceError,
    >)
        ensures
            final(self)@ == cached_after(old(self)@, source@, outcome),
            match r {
                Ok(slot) => refusal_of(outcome) is None && slot_of(final(self)@, source@) == Some(
                    slot as int,
                ),
                Err(e) => refusal_of(outcome) == Some(e@),
            },
    {
        match compile(outcome) {
            Ok(_) => {
                proof {
                    self@.index_of_first_ensures(source@);
                }
                match self.find(source) {
                    Some(slot) => Ok(slot),
                    None => {
                        let slot: usize = self.sources.len();
                        self.sources.push(source.to_owned());
                        proof {
                            assert(self@ =~= old(self)@.push(source@));
                            assert(self@[slot as int] == source@);
                            assert forall|k: int| 0 <= k < slot implies self@[k] != source@ by {
                                assert(self@[k] == old(self)@[k]);
                            }
                            self@.index_of_first_ensures(source@);
                        }
                        Ok(slot)
                    },
                }
            },
            Err(e) => Err(e),
        }
    }
}

/// A script that was compiled once keeps its place whatever is compiled later, so it is never
/// compiled again.
pub proof fn compiled_scripts_stay(
    sources: Seq<Seq<char>>,
    source: Seq<char>,
    other: Seq<char>,
    outcome: CompileOutcome,
)
    requires
        slot_of(sources, source) is Some,
    ensures
        slot_of(cached_after(sources, other, outcome), source) == slot_of(sources, source),
{
    let after = cached_after(sources, other, outcome);
    sources.index_of_first_ensures(source);
    let slot = slot_of(sources, source)->0;
    assert(after[slot] == source);
    after.index_of_first_ensures(source);
    let new_slot = slot_of(after, source)->0;
    if new_slot < slot {
        assert(sources[new_slot] == source);
    }
}

/// A compilation that failed leaves the cache as it was, so that it is tried again.
pub proof fn failed_compilations_are_not_kept(
    sources: Seq<Seq<char>>,
    source: Seq<char>,
    outcome: CompileOutcome,
)
    requires
        refusal_of(outcome) is Some,
    ensures
        cached_after(sources, source, outcome) == sources,
{
}

/// No script is compiled twice: the cache never holds the same one in two places.
pub proof fn scripts_are_compiled_once(
    sources: Seq<Seq<char>>,
    source: Seq<char>,
    outcome: CompileOutcome,
)
    requires
        sources.no_duplicates(),
    ensures
        cached_after(sources, source, outcome).no_duplicates(),
{
}

/// A failure is told by its message; one without a message says so, as does one that says nothing.
pub proof fn failures_are_told_by_their_message(message: String)
    ensures
        failure_text(ScriptFailure::Message(message)) == message@,
        failure_text(ScriptFailure::NoMessage) == "(unknown OSA error)"@,
        failure_text(ScriptFailure::Silent) == "(no error information)"@,
{
}

/// A script can be used exactly when it was compiled; any other outcome is an internal error that
/// tells what went wrong.
pub proof fn refusals_tell_what_went_wrong(failure: ScriptFailure)
    ensures
        refusal_of(CompileOutcome::Compiled) is None,
        refusal_of(CompileOutcome::NoLanguage) == Some(
            ErrorModel::InternalError("JavaScript OSA language is unavailable"@),
        ),
        refusal_of(CompileOutcome::NoScript) == Some(
            ErrorModel::InternalError("OSAScript initialization failed"@),
        ),
        refusal_of(CompileOutcome::Refused(failure)) matches Some(ErrorModel::InternalError(text))
            && text == "OSA script compilation failed: "@ + failure_text(failure),
{
}

/// A script gives the text that it returned; any other outcome is an internal error that tells what
/// went wrong.
pub proof fn scripts_give_their_text(text: String, failure: ScriptFailure)
    ensures
        run_result(RunOutcome::Text(text)) == Ok::<_, ErrorModel>(text@),
        run_result(RunOutcome::NoText) == Err::<Seq<char>, _>(
            ErrorModel::InternalError("OSA script returned no string value"@),
        ),
        run_result(RunOutcome::Failed(failure)) matches Err(ErrorModel::InternalError(told))
            && told == "OSA script execution failed: "@ + failure_text(failure),
{
}

/// A request gives what the worker answered, a text as it is and an error as it is; without an
/// answer it is an internal error.
pub proof fn requests_give_their_answer(text: String, error: MediaSourceError)
    ensures
        request_result(RequestOutcome::Answered(Ok(text))) == Ok::<_, ErrorModel>(text@),
        request_result(RequestOutcome::Answered(Err(error))) == Err::<Seq<char>, _>(error@),
        request_result(RequestOutcome::WorkerGone) == Err::<Seq<char>, _>(
            ErrorModel::InternalError("OSA worker thread is not running"@),
        ),
        request_result(RequestOutcome::Unanswered) == Err::<Seq<char>, _>(
            ErrorModel::InternalError("OSA worker dropped the request"@),
        ),
        text_outcome(Ok(text)) == Ok::<_, ErrorModel>(text@),
        text_outcome(Err(error)) == Err::<Seq<char>, _>(error@),
{
}

/// The place of a script is the first at which it stands, if it stands anywhere.
pub proof fn scripts_are_found_at_their_place(sources: Seq<Seq<char>>, source: Seq<char>)
    ensures
        slot_of(sources, source) is Some <==> sources.contains(source),
        slot_of(sources, source) matches Some(slot) ==> 0 <= slot < sources.len() && sources[slot]
            == source && forall|k: int| 0 <= k < slot ==> #[trigger] sources[k] != source,
{
    sources.index_of_first_ensures(source);
}

/// A script that compiles takes the next place, unless it has one; no other script is moved.
pub proof fn compiled_scripts_take_the_next_place(sources: Seq<Seq<char>>, source: Seq<char>)
    ensures
        !sources.contains(source) ==> cached_after(sources, source, CompileOutcome::Compiled)
            == sources.push(source),
        sources.contains(source) ==> cached_after(sources, source, CompileOutcome::Compiled)
            == sources,
{
}

} // verus!
