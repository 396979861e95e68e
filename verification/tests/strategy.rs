use pagestate::error::{BuildError, ErrorCause, GenerationError, RequestError};
use pagestate::key::PathKey;
use pagestate::strategy::{BaseStrategy, GenerationStrategy, Phase, Procedure};
use pagestate::template::{BuildPaths, Template};

fn paths(listed: &[&str]) -> BuildPaths {
    let mut all = Vec::new();
    for path in listed {
        all.push(path.to_string());
    }
    BuildPaths::new(all)
}

#[test]
fn stateless_template_generates_nothing() {
    for listed in [false, true] {
        assert_eq!(GenerationStrategy::Stateless.plan(Phase::Build, listed), None);
        assert_eq!(GenerationStrategy::Stateless.plan(Phase::Request, listed), None);
    }
}

#[test]
fn build_only_runs_at_build_time_only() {
    for listed in [false, true] {
        assert_eq!(
            GenerationStrategy::BuildOnly.plan(Phase::Build, listed),
            Some(Procedure::Build)
        );
        assert_eq!(GenerationStrategy::BuildOnly.plan(Phase::Request, listed), None);
    }
}

#[test]
fn request_only_runs_at_request_time_only() {
    for listed in [false, true] {
        assert_eq!(GenerationStrategy::RequestOnly.plan(Phase::Build, listed), None);
        assert_eq!(
            GenerationStrategy::RequestOnly.plan(Phase::Request, listed),
            Some(Procedure::Request)
        );
    }
}

#[test]
fn amalgamation_runs_at_request_time_only() {
    for listed in [false, true] {
        assert_eq!(
            GenerationStrategy::BuildAndRequestAmalgamated.plan(Phase::Build, listed),
            None
        );
        assert_eq!(
            GenerationStrategy::BuildAndRequestAmalgamated.plan(Phase::Request, listed),
            Some(Procedure::Amalgamate)
        );
    }
}

#[test]
fn incremental_listed_path_goes_by_the_base() {
    let bases = [
        BaseStrategy::Stateless,
        BaseStrategy::BuildOnly,
        BaseStrategy::RequestOnly,
        BaseStrategy::BuildAndRequestAmalgamated,
    ];
    for base in bases {
        for phase in [Phase::Build, Phase::Request] {
            assert_eq!(
                GenerationStrategy::Incremental(base).plan(phase, true),
                base.allowed(phase)
            );
        }
    }
    assert_eq!(
        GenerationStrategy::Incremental(BaseStrategy::BuildOnly).plan(Phase::Build, true),
        Some(Procedure::Build)
    );
    assert_eq!(
        GenerationStrategy::Incremental(BaseStrategy::BuildOnly).plan(Phase::Request, true),
        None
    );
}

#[test]
fn incremental_unlisted_path_is_deferred_to_the_request() {
    assert_eq!(
        GenerationStrategy::Incremental(BaseStrategy::BuildOnly).plan(Phase::Request, false),
        Some(Procedure::Build)
    );
    assert_eq!(
        GenerationStrategy::Incremental(BaseStrategy::RequestOnly).plan(Phase::Request, false),
        Some(Procedure::Request)
    );
    assert_eq!(
        GenerationStrategy::Incremental(BaseStrategy::BuildAndRequestAmalgamated)
            .plan(Phase::Request, false),
        Some(Procedure::Amalgamate)
    );
    assert_eq!(
        GenerationStrategy::Incremental(BaseStrategy::Stateless).plan(Phase::Request, false),
        None
    );
    let bases = [
        BaseStrategy::Stateless,
        BaseStrategy::BuildOnly,
        BaseStrategy::RequestOnly,
        BaseStrategy::BuildAndRequestAmalgamated,
    ];
    for base in bases {
        assert_eq!(GenerationStrategy::Incremental(base).plan(Phase::Build, false), None);
    }
}

#[test]
fn base_and_incremental_part_of_a_strategy() {
    assert_eq!(GenerationStrategy::Stateless.base(), BaseStrategy::Stateless);
    assert_eq!(GenerationStrategy::BuildOnly.base(), BaseStrategy::BuildOnly);
    assert_eq!(GenerationStrategy::RequestOnly.base(), BaseStrategy::RequestOnly);
    assert_eq!(
        GenerationStrategy::BuildAndRequestAmalgamated.base(),
        BaseStrategy::BuildAndRequestAmalgamated
    );
    assert_eq!(
        GenerationStrategy::Incremental(BaseStrategy::RequestOnly).base(),
        BaseStrategy::RequestOnly
    );
    assert!(GenerationStrategy::Incremental(BaseStrategy::BuildOnly).is_incremental());
    assert!(!GenerationStrategy::BuildOnly.is_incremental());
    assert_eq!(BaseStrategy::Stateless.procedure(), None);
    assert_eq!(BaseStrategy::BuildOnly.procedure(), Some(Procedure::Build));
    assert_eq!(BaseStrategy::RequestOnly.procedure(), Some(Procedure::Request));
    assert_eq!(
        BaseStrategy::BuildAndRequestAmalgamated.procedure(),
        Some(Procedure::Amalgamate)
    );
}

#[test]
fn build_paths_contain_what_was_listed() {
    let listed = paths(&["welcome", "foobar", "welcome"]);
    assert!(listed.contains("welcome"));
    assert!(listed.contains("foobar"));
    assert!(!listed.contains("unseen-slug"));
    assert!(!listed.contains("welcom"));
    assert!(!listed.contains(""));
    assert!(!paths(&[]).contains("welcome"));
}

#[test]
fn template_plans_by_its_build_paths() {
    let template = Template::new(
        GenerationStrategy::Incremental(BaseStrategy::BuildOnly),
        paths(&["welcome", "foobar"]),
        None,
    );
    let listed = PathKey::new("en-US".to_string(), "welcome".to_string());
    let unlisted = PathKey::new("en-US".to_string(), "unseen-slug".to_string());
    assert_eq!(template.plan(&listed, Phase::Build), Some(Procedure::Build));
    assert_eq!(template.plan(&listed, Phase::Request), None);
    assert_eq!(template.plan(&unlisted, Phase::Build), None);
    assert_eq!(template.plan(&unlisted, Phase::Request), Some(Procedure::Build));
}

#[test]
fn template_keeps_what_it_was_made_with() {
    let template = Template::new(
        GenerationStrategy::Incremental(BaseStrategy::RequestOnly),
        paths(&["welcome"]),
        Some(86_400),
    );
    assert_eq!(template.strategy(), GenerationStrategy::Incremental(BaseStrategy::RequestOnly));
    assert_eq!(template.revalidation_interval(), Some(86_400));
    assert!(template.lists(&PathKey::new("en-US".to_string(), "welcome".to_string())));
    assert!(template.lists(&PathKey::new("fr-FR".to_string(), "welcome".to_string())));
    assert!(!template.lists(&PathKey::new("en-US".to_string(), "foobar".to_string())));
}

#[test]
fn only_a_request_failure_can_blame_the_client() {
    let client = GenerationError::Request(RequestError {
        cause: ErrorCause::Client,
        message: "no such post".to_string(),
    });
    let server = GenerationError::Request(RequestError {
        cause: ErrorCause::Server,
        message: "database down".to_string(),
    });
    let build = GenerationError::Build(BuildError { message: "bad template".to_string() });
    assert_eq!(client.cause(), ErrorCause::Client);
    assert_eq!(server.cause(), ErrorCause::Server);
    assert_eq!(build.cause(), ErrorCause::Server);
    assert_eq!(GenerationError::StrategyMismatch.cause(), ErrorCause::Server);
    assert_eq!(GenerationError::LockPoisoned.cause(), ErrorCause::Server);
    assert_eq!(GenerationError::Unavailable.cause(), ErrorCause::Server);
}
