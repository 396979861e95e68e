use pagestate::error::{BuildError, ErrorCause, GenerationError, RequestError};
use pagestate::pipeline::{Directive, Generation, Outcome};
use pagestate::strategy::Procedure;

fn built(state: &str) -> Outcome {
    Outcome::Built(Ok(state.to_string()))
}

fn requested(state: &str) -> Outcome {
    Outcome::Requested(Ok(state.to_string()))
}

fn amalgamated(state: &str) -> Outcome {
    Outcome::Amalgamated(Ok(state.to_string()))
}

fn build_error() -> BuildError {
    BuildError { message: "no data at build time".to_string() }
}

fn not_found() -> RequestError {
    RequestError { cause: ErrorCause::Client, message: "page not found".to_string() }
}

fn finished(state: &str) -> (Generation, Directive) {
    (Generation::Finished, Directive::Finish(Ok(state.to_string())))
}

fn failed(error: GenerationError) -> (Generation, Directive) {
    (Generation::Finished, Directive::Finish(Err(error)))
}

#[test]
fn build_procedure_invokes_the_build_function_only() {
    let (generation, first) = Generation::start(Procedure::Build);
    assert_eq!(first, Directive::RunBuild);
    assert_eq!(generation, Generation::Building { amalgamated: false });
    assert_eq!(generation.advance(built("{\"title\":\"a\"}")), finished("{\"title\":\"a\"}"));
}

#[test]
fn request_procedure_invokes_the_request_function_only() {
    let (generation, first) = Generation::start(Procedure::Request);
    assert_eq!(first, Directive::RunRequest);
    assert_eq!(generation, Generation::Requesting { build_state: None });
    assert_eq!(generation.advance(requested("r")), finished("r"));
}

#[test]
fn amalgamation_invokes_all_three_in_order() {
    let (generation, first) = Generation::start(Procedure::Amalgamate);
    assert_eq!(first, Directive::RunBuild);
    let (generation, second) = generation.advance(built("b"));
    assert_eq!(second, Directive::RunRequest);
    assert_eq!(generation, Generation::Requesting { build_state: Some("b".to_string()) });
    let (generation, third) = generation.advance(requested("r"));
    assert_eq!(
        third,
        Directive::RunAmalgamate { build_state: "b".to_string(), request_state: "r".to_string() }
    );
    assert_eq!(generation, Generation::Amalgamating);
    assert_eq!(generation.advance(amalgamated("b+r")), finished("b+r"));
}

#[test]
fn build_failure_is_a_build_error() {
    let (generation, _) = Generation::start(Procedure::Build);
    assert_eq!(
        generation.advance(Outcome::Built(Err(build_error()))),
        failed(GenerationError::Build(build_error()))
    );
}

#[test]
fn build_failure_ends_an_amalgamation_before_the_request() {
    let (generation, _) = Generation::start(Procedure::Amalgamate);
    let end = generation.advance(Outcome::Built(Err(build_error())));
    assert_eq!(end, failed(GenerationError::Build(build_error())));
    if let Directive::Finish(Err(error)) = end.1 {
        assert_eq!(error.cause(), ErrorCause::Server);
    } else {
        panic!("the generation did not fail");
    }
}

#[test]
fn request_failure_is_a_request_error_with_its_cause() {
    let (generation, _) = Generation::start(Procedure::Request);
    let end = generation.advance(Outcome::Requested(Err(not_found())));
    assert_eq!(end, failed(GenerationError::Request(not_found())));
    if let Directive::Finish(Err(error)) = end.1 {
        assert_eq!(error.cause(), ErrorCause::Client);
    } else {
        panic!("the generation did not fail");
    }
}

#[test]
fn request_failure_ends_an_amalgamation_before_the_merge() {
    let (generation, _) = Generation::start(Procedure::Amalgamate);
    let (generation, _) = generation.advance(built("b"));
    assert_eq!(
        generation.advance(Outcome::Requested(Err(not_found()))),
        failed(GenerationError::Request(not_found()))
    );
}

#[test]
fn merge_failure_is_a_request_error() {
    let broken = RequestError { cause: ErrorCause::Server, message: "cannot merge".to_string() };
    let (generation, _) = Generation::start(Procedure::Amalgamate);
    let (generation, _) = generation.advance(built("b"));
    let (generation, _) = generation.advance(requested("r"));
    assert_eq!(
        generation.advance(Outcome::Amalgamated(Err(broken.clone()))),
        failed(GenerationError::Request(broken))
    );
}

#[test]
fn request_outcome_for_a_build_only_generation_is_a_mismatch() {
    let (generation, _) = Generation::start(Procedure::Build);
    assert_eq!(generation.advance(requested("r")), failed(GenerationError::StrategyMismatch));
}

#[test]
fn build_outcome_for_a_request_only_generation_is_a_mismatch() {
    let (generation, _) = Generation::start(Procedure::Request);
    assert_eq!(generation.advance(built("b")), failed(GenerationError::StrategyMismatch));
}

#[test]
fn outcome_that_was_not_asked_for_is_a_mismatch() {
    let (generation, _) = Generation::start(Procedure::Build);
    assert_eq!(generation.advance(amalgamated("x")), failed(GenerationError::StrategyMismatch));
    let (generation, _) = Generation::start(Procedure::Amalgamate);
    let (generation, _) = generation.advance(built("b"));
    assert_eq!(generation.advance(built("b")), failed(GenerationError::StrategyMismatch));
    assert_eq!(
        Generation::Amalgamating.advance(requested("r")),
        failed(GenerationError::StrategyMismatch)
    );
}

#[test]
fn finished_generation_takes_no_more_outcomes() {
    assert_eq!(Generation::Finished.advance(built("b")), failed(GenerationError::StrategyMismatch));
    assert_eq!(
        Generation::Finished.advance(requested("r")),
        failed(GenerationError::StrategyMismatch)
    );
    assert_eq!(
        Generation::Finished.advance(amalgamated("a")),
        failed(GenerationError::StrategyMismatch)
    );
}
