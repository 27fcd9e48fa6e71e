use crate::keys::{generic_of, GenericKey, KeySymbol};
use crate::names::{parse_key, resolve_name};
use vstd::prelude::*;
use vstd::string::*;

verus! {

/// Milliseconds to wait between the synthetic press and the release, so that
/// receivers that coalesce an instantaneous pair still see both.
pub const SETTLE_DELAY_MS: u64 = 100;

/// Where an injection of one key stands.
#[derive(Clone, Copy, Debug, PartialEq, Eq, Structural)]
pub enum InjectPhase {
    /// The press of the key has been asked for.
    Pressing(KeySymbol),
    /// The press went through; the settle delay has been asked for.
    Settling(KeySymbol),
    /// The release of the key has been asked for.
    Releasing(KeySymbol),
    /// The injection is over; its result has been handed out.
    Finished,
}

/// What the host is to do next on behalf of an injection.
pub enum InjectAction {
    /// Deliver a synthetic press of the key.
    Press(GenericKey),
    /// Sleep this many milliseconds.
    Sleep(u64),
    /// Deliver a synthetic release of the key.
    Release(GenericKey),
    /// Stop and hand this result to the caller.
    Finish(Result<(), String>),
}

/// The mathematical content of an action.
pub enum ActionModel {
    Press(GenericKey),
    Sleep(u64),
    Release(GenericKey),
    Finish(Result<(), Seq<char>>),
}

impl View for InjectAction {
    type V = ActionModel;

    open spec fn view(&self) -> ActionModel {
        match self {
            InjectAction::Press(g) => ActionModel::Press(*g),
            InjectAction::Sleep(ms) => ActionModel::Sleep(*ms),
            InjectAction::Release(g) => ActionModel::Release(*g),
            InjectAction::Finish(Ok(())) => ActionModel::Finish(Ok(())),
            InjectAction::Finish(Err(e)) => ActionModel::Finish(Err(e@)),
        }
    }
}

/// The characters of the outcome that the host reports for an action.
pub open spec fn outcome_chars(o: Result<(), String>) -> Result<(), Seq<char>> {
    match o {
        Ok(()) => Ok(()),
        Err(e) => Err(e@),
    }
}

/// The error of a name that resolves to no key.
pub open spec fn invalid_key_error(name: Seq<char>) -> Seq<char> {
    "invalid key: "@ + name
}

/// The error of a press or release that the system refused.
pub open spec fn simulate_error(description: Seq<char>) -> Seq<char> {
    "Failed to simulate key: "@ + description
}

/// The first step of injecting the key named `name`.
pub open spec fn begin_model(name: Seq<char>) -> (InjectPhase, ActionModel) {
    match resolve_name(name) {
        Some(k) => (InjectPhase::Pressing(k), ActionModel::Press(generic_of(k))),
        None => (InjectPhase::Finished, ActionModel::Finish(Err(invalid_key_error(name)))),
    }
}

/// The step that follows `phase` once the host reports `outcome` for the
/// action that `phase` asked for. A finished injection takes no further step
/// (`advance_injection` requires an unfinished phase); the model leaves it
/// where it is.
pub open spec fn advance_model(phase: InjectPhase, outcome: Result<(), Seq<char>>) -> (
    InjectPhase,
    ActionModel,
) {
    match phase {
        InjectPhase::Pressing(k) => match outcome {
            Ok(()) => (InjectPhase::Settling(k), ActionModel::Sleep(SETTLE_DELAY_MS)),
            Err(e) => (InjectPhase::Finished, ActionModel::Finish(Err(simulate_error(e)))),
        },
        InjectPhase::Settling(k) => (InjectPhase::Releasing(k), ActionModel::Release(generic_of(k))),
        InjectPhase::Releasing(k) => match outcome {
            Ok(()) => (InjectPhase::Finished, ActionModel::Finish(Ok(()))),
            Err(e) => (InjectPhase::Finished, ActionModel::Finish(Err(simulate_error(e)))),
        },
        InjectPhase::Finished => (InjectPhase::Finished, ActionModel::Finish(Ok(()))),
    }
}

/// Starts injecting the key named `name`: asks for its press, or finishes at
/// once with an error where the name resolves to no key.
pub fn begin_injection(name: &str) -> (r: (InjectPhase, InjectAction))
    ensures
        (r.0, r.1@) == begin_model(name@),
{
    match parse_key(name) {
        Some(k) => (InjectPhase::Pressing(k), InjectAction::Press(k.generic_key())),
        None => {
            let e = String::from_str("invalid key: ").concat(name);
            (InjectPhase::Finished, InjectAction::Finish(Err(e)))
        },
    }
}

/// Advances an injection that is not finished, given how the action that
/// its phase asked for went.
pub fn advance_injection(phase: InjectPhase, outcome: Result<(), String>) -> (r: (
    InjectPhase,
    InjectAction,
))
    requires
        phase != InjectPhase::Finished,
    ensures
        (r.0, r.1@) == advance_model(phase, outcome_chars(outcome)),
{
    match phase {
        InjectPhase::Pressing(k) => match outcome {
            Ok(()) => (InjectPhase::Settling(k), InjectAction::Sleep(SETTLE_DELAY_MS)),
            Err(e) => (InjectPhase::Finished, InjectAction::Finish(Err(simulate_failure(&e)))),
        },
        InjectPhase::Settling(k) => (InjectPhase::Releasing(k), InjectAction::Release(k.generic_key())),
        InjectPhase::Releasing(k) => match outcome {
            Ok(()) => (InjectPhase::Finished, InjectAction::Finish(Ok(()))),
            Err(e) => (InjectPhase::Finished, InjectAction::Finish(Err(simulate_failure(&e)))),
        },
        InjectPhase::Finished => (InjectPhase::Finished, InjectAction::Finish(Ok(()))),
    }
}

fn simulate_failure(description: &String) -> (r: String)
    ensures
        r@ == simulate_error(description@),
{
    String::from_str("Failed to simulate key: ").concat(description.as_str())
}

/// An injection of a known key in which every action goes through asks the
/// host for exactly one press, then the settle delay, then exactly one
/// release of the same key, and then finishes with success.
pub proof fn lemma_successful_injection(name: Seq<char>, k: KeySymbol)
    requires
        resolve_name(name) == Some(k),
    ensures
        begin_model(name) == (InjectPhase::Pressing(k), ActionModel::Press(generic_of(k))),
        advance_model(InjectPhase::Pressing(k), Ok(())) == (
            InjectPhase::Settling(k),
            ActionModel::Sleep(SETTLE_DELAY_MS),
        ),
        advance_model(InjectPhase::Settling(k), Ok(())) == (
            InjectPhase::Releasing(k),
            ActionModel::Release(generic_of(k)),
        ),
        advance_model(InjectPhase::Releasing(k), Ok(())) == (
            InjectPhase::Finished,
            ActionModel::Finish(Ok(())),
        ),
{
}

/// A name that resolves to no key finishes the injection at its first step
/// with the invalid-key error, before any press or release is asked for.
pub proof fn lemma_unknown_name_injects_nothing(name: Seq<char>)
    requires
        resolve_name(name) is None,
    ensures
        begin_model(name) == (
            InjectPhase::Finished,
            ActionModel::Finish(Err(invalid_key_error(name))),
        ),
{
}

/// A release is asked for only right after the settle delay that followed a
/// press of the same key that went through; a failed press ends the
/// injection without a release.
pub proof fn lemma_release_follows_press(phase: InjectPhase, outcome: Result<(), Seq<char>>)
    requires
        phase != InjectPhase::Finished,
    ensures
        advance_model(phase, outcome).1 matches ActionModel::Release(g) ==> (phase
            matches InjectPhase::Settling(k) && g == generic_of(k)),
        advance_model(phase, outcome).0 matches InjectPhase::Settling(k) ==> (phase
            == InjectPhase::Pressing(k) && outcome is Ok && advance_model(phase, outcome).1
            == ActionModel::Sleep(SETTLE_DELAY_MS)),
        (phase matches InjectPhase::Pressing(_) && outcome is Err) ==> advance_model(
            phase,
            outcome,
        ).0 == InjectPhase::Finished,
{
}

} // verus!
