//! One generation, step by step: which function to invoke next, and what the
//! generation comes to.
//!
//! The functions themselves belong to the template's author and may take their
//! time. A [`Generation`] only decides: it says what to invoke, is told what came
//! back, and says what to do next.

use vstd::prelude::*;
use crate::error::{BuildError, GenerationError, RequestError};
use crate::strategy::Procedure;

verus! {

/// What one of the template's functions returned.
#[derive(Debug, PartialEq, Eq)]
pub enum Outcome {
    /// The result of the build-time function.
    Built(Result<String, BuildError>),
    /// The result of the request-time function.
    Requested(Result<String, RequestError>),
    /// The result of merging the build-time and the request-time state.
    Amalgamated(Result<String, RequestError>),
}

/// What is to be done next for a generation.
#[derive(Debug, PartialEq, Eq)]
pub enum Directive {
    /// Invoke the build-time function and report a [`Outcome::Built`].
    RunBuild,
    /// Invoke the request-time function and report a [`Outcome::Requested`].
    RunRequest,
    /// Merge the two states and report a [`Outcome::Amalgamated`].
    RunAmalgamate { build_state: String, request_state: String },
    /// Nothing more: the generation has come to this.
    Finish(Result<String, GenerationError>),
}

/// How far a generation has come.
#[derive(Debug, PartialEq, Eq)]
pub enum Generation {
    /// The build-time function is running; `amalgamated` says whether the
    /// request-time function and the merge are to follow.
    Building { amalgamated: bool },
    /// The request-time function is running; `build_state` is the state to merge
    /// its result with, if there is to be a merge.
    Requesting { build_state: Option<String> },
    /// The merge is running.
    Amalgamating,
    /// The generation has finished.
    Finished,
}

impl Generation {
    /// Where a generation by `procedure` starts, and what it asks for first.
    pub open spec fn spec_start(procedure: Procedure) -> (Generation, Directive) {
        match procedure {
            Procedure::Build => (Generation::Building { amalgamated: false }, Directive::RunBuild),
            Procedure::Request => (
                Generation::Requesting { build_state: None },
                Directive::RunRequest,
            ),
            Procedure::Amalgamate => (
                Generation::Building { amalgamated: true },
                Directive::RunBuild,
            ),
        }
    }

    /// Where the generation stands once `outcome` has been reported, and what it
    /// asks for next.
    ///
    /// A failure ends the generation at once: that of the build-time function as
    /// a build failure, that of the request-time function or of the merge as a
    /// request failure. An outcome that was not asked for ends it as a mismatch
    /// with the strategy.
    pub open spec fn spec_advance(self, outcome: Outcome) -> (Generation, Directive) {
        match (self, outcome) {
            (Generation::Building { amalgamated }, Outcome::Built(Ok(state))) => if amalgamated {
                (Generation::Requesting { build_state: Some(state) }, Directive::RunRequest)
            } else {
                (Generation::Finished, Directive::Finish(Ok(state)))
            },
            (Generation::Building { .. }, Outcome::Built(Err(error))) => (
                Generation::Finished,
                Directive::Finish(Err(GenerationError::Build(error))),
            ),
            (Generation::Requesting { build_state }, Outcome::Requested(Ok(state))) => match (
                build_state
            ) {
                Some(built) => (
                    Generation::Amalgamating,
                    Directive::RunAmalgamate { build_state: built, request_state: state },
                ),
                None => (Generation::Finished, Directive::Finish(Ok(state))),
            },
            (Generation::Requesting { .. }, Outcome::Requested(Err(error))) => (
                Generation::Finished,
                Directive::Finish(Err(GenerationError::Request(error))),
            ),
            (Generation::Amalgamating, Outcome::Amalgamated(Ok(state))) => (
                Generation::Finished,
                Directive::Finish(Ok(state)),
            ),
            (Generation::Amalgamating, Outcome::Amalgamated(Err(error))) => (
                Generation::Finished,
                Directive::Finish(Err(GenerationError::Request(error))),
            ),
            _ => (Generation::Finished, Directive::Finish(Err(GenerationError::StrategyMismatch))),
        }
    }

    /// Starts a generation by `procedure`.
    pub fn start(procedure: Procedure) -> (begun: (Generation, Directive))
        ensures
            begun == Generation::spec_start(procedure),
    {
        match procedure {
            Procedure::Build => (Generation::Building { amalgamated: false }, Directive::RunBuild),
            Procedure::Request => (
                Generation::Requesting { build_state: None },
                Directive::RunRequest,
            ),
            Procedure::Amalgamate => (
                Generation::Building { amalgamated: true },
                Directive::RunBuild,
            ),
        }
    }

    /// Takes in what the function last asked for returned.
    pub fn advance(self, outcome: Outcome) -> (next: (Generation, Directive))
        ensures
            next == self.spec_advance(outcome),
            next.0 is Finished <==> next.1 is Finish,
    {
        match self {
            Generation::Building { amalgamated } => match outcome {
                Outcome::Built(Ok(state)) => if amalgamated {
                    (Generation::Requesting { build_state: Some(state) }, Directive::RunRequest)
                } else {
                    (Generation::Finished, Directive::Finish(Ok(state)))
                },
                Outcome::Built(Err(error)) => (
                    Generation::Finished,
                    Directive::Finish(Err(GenerationError::Build(error))),
                ),
                _ => (
                    Generation::Finished,
                    Directive::Finish(Err(GenerationError::StrategyMismatch)),
                ),
            },
            Generation::Requesting { build_state } => match outcome {
                Outcome::Requested(Ok(state)) => match build_state {
                    Some(built) => (
                        Generation::Amalgamating,
                        Directive::RunAmalgamate { build_state: built, request_state: state },
                    ),
                    None => (Generation::Finished, Directive::Finish(Ok(state))),
                },
                Outcome::Requested(Err(error)) => (
                    Generation::Finished,
                    Directive::Finish(Err(GenerationError::Request(error))),
                ),
                _ => (
                    Generation::Finished,
                    Directive::Finish(Err(GenerationError::StrategyMismatch)),
                ),
            },
            Generation::Amalgamating => match outcome {
                Outcome::Amalgamated(Ok(state)) => (
                    Generation::Finished,
                    Directive::Finish(Ok(state)),
                ),
                Outcome::Amalgamated(Err(error)) => (
                    Generation::Finished,
                    Directive::Finish(Err(GenerationError::Request(error))),
                ),
                _ => (
                    Generation::Finished,
                    Directive::Finish(Err(GenerationError::StrategyMismatch)),
                ),
            },
            Generation::Finished => (
                Generation::Finished,
                Directive::Finish(Err(GenerationError::StrategyMismatch)),
            ),
        }
    }
}

/// What a generation by `procedure` comes to, given what each function returns
/// when it is invoked: the state of the one function, or, for a merge, the merged
/// state if the build-time and the request-time function both succeed.
pub open spec fn generated(
    procedure: Procedure,
    built: Result<String, BuildError>,
    requested: Result<String, RequestError>,
    amalgamated: Result<String, RequestError>,
) -> Result<String, GenerationError> {
    match procedure {
        Procedure::Build => match built {
            Ok(state) => Ok(state),
            Err(error) => Err(GenerationError::Build(error)),
        },
        Procedure::Request => match requested {
            Ok(state) => Ok(state),
            Err(error) => Err(GenerationError::Request(error)),
        },
        Procedure::Amalgamate => match (built, requested, amalgamated) {
            (Err(error), _, _) => Err(GenerationError::Build(error)),
            (Ok(_), Err(error), _) => Err(GenerationError::Request(error)),
            (Ok(_), Ok(_), Err(error)) => Err(GenerationError::Request(error)),
            (Ok(_), Ok(_), Ok(state)) => Ok(state),
        },
    }
}

/// The directives of a generation by `procedure` when each function returns the
/// given result: first to last, ending with the one that finishes it.
pub open spec fn directives(
    procedure: Procedure,
    built: Result<String, BuildError>,
    requested: Result<String, RequestError>,
    amalgamated: Result<String, RequestError>,
) -> Seq<Directive> {
    let finish = Directive::Finish(generated(procedure, built, requested, amalgamated));
    match procedure {
        Procedure::Build => seq![Directive::RunBuild, finish],
        Procedure::Request => seq![Directive::RunRequest, finish],
        Procedure::Amalgamate => match (built, requested) {
            (Err(_), _) => seq![Directive::RunBuild, finish],
            (Ok(_), Err(_)) => seq![Directive::RunBuild, Directive::RunRequest, finish],
            (Ok(build_state), Ok(request_state)) => seq![
                Directive::RunBuild,
                Directive::RunRequest,
                Directive::RunAmalgamate { build_state, request_state },
                finish,
            ],
        },
    }
}

/// The outcome to report in answer to `directive`, where each function returns
/// the given result.
pub open spec fn answer(
    directive: Directive,
    built: Result<String, BuildError>,
    requested: Result<String, RequestError>,
    amalgamated: Result<String, RequestError>,
) -> Outcome {
    match directive {
        Directive::RunBuild => Outcome::Built(built),
        Directive::RunRequest => Outcome::Requested(requested),
        _ => Outcome::Amalgamated(amalgamated),
    }
}

/// The directives that a generation gives from `directive` on, itself included,
/// when every directive is answered with what its function returns. `limit`
/// bounds their number.
pub open spec fn follow(
    generation: Generation,
    directive: Directive,
    built: Result<String, BuildError>,
    requested: Result<String, RequestError>,
    amalgamated: Result<String, RequestError>,
    limit: nat,
) -> Seq<Directive>
    decreases limit,
{
    if directive is Finish || limit == 0 {
        seq![directive]
    } else {
        let next = generation.spec_advance(answer(directive, built, requested, amalgamated));
        seq![directive] + follow(next.0, next.1, built, requested, amalgamated, (limit - 1) as nat)
    }
}

/// A generation that is answered faithfully invokes the functions of its
/// procedure in order, stops at the first failure, merges exactly the two
/// states that were generated, and finishes with [`generated`].
pub proof fn lemma_generation_follows_procedure(
    procedure: Procedure,
    built: Result<String, BuildError>,
    requested: Result<String, RequestError>,
    amalgamated: Result<String, RequestError>,
    limit: nat,
)
    requires
        limit >= 3,
    ensures
        follow(
            Generation::spec_start(procedure).0,
            Generation::spec_start(procedure).1,
            built,
            requested,
            amalgamated,
            limit,
        ) == directives(procedure, built, requested, amalgamated),
{
    reveal_with_fuel(follow, 5);
    let begun = Generation::spec_start(procedure);
    assert(follow(begun.0, begun.1, built, requested, amalgamated, limit) =~= directives(
        procedure,
        built,
        requested,
        amalgamated,
    ));
}

} // verus!
