//! Which generation functions a template declares, and what may run when.

use vstd::prelude::*;

verus! {

/// The generation functions that a template can declare, incremental generation aside.
#[derive(Clone, Copy, PartialEq, Eq, Debug, Structural)]
pub enum BaseStrategy {
    /// No generation function at all.
    Stateless,
    /// A build-time function only.
    BuildOnly,
    /// A request-time function only.
    RequestOnly,
    /// A build-time and a request-time function, and one that merges their states.
    BuildAndRequestAmalgamated,
}

/// The generation functions declared for a template, fixed when it is registered.
#[derive(Clone, Copy, PartialEq, Eq, Debug, Structural)]
pub enum GenerationStrategy {
    /// No generation function at all.
    Stateless,
    /// A build-time function only.
    BuildOnly,
    /// A request-time function only.
    RequestOnly,
    /// A build-time and a request-time function, and one that merges their states.
    BuildAndRequestAmalgamated,
    /// As the base strategy for the paths known at build time; any other path is
    /// generated when it is first requested.
    Incremental(BaseStrategy),
}

/// When a generation is asked for.
#[derive(Clone, Copy, PartialEq, Eq, Debug, Structural)]
pub enum Phase {
    /// Ahead of serving, with no request at hand.
    Build,
    /// While a request is being served.
    Request,
}

/// The functions that one generation invokes, in order.
#[derive(Clone, Copy, PartialEq, Eq, Debug, Structural)]
pub enum Procedure {
    /// The build-time function; its state is the result.
    Build,
    /// The request-time function; its state is the result.
    Request,
    /// The build-time function, then the request-time function, then the merge of
    /// both states, which is the result.
    Amalgamate,
}

impl BaseStrategy {
    /// The procedure that produces a state with all the functions this strategy
    /// declares, if it declares any.
    pub open spec fn spec_procedure(self) -> Option<Procedure> {
        match self {
            BaseStrategy::Stateless => None,
            BaseStrategy::BuildOnly => Some(Procedure::Build),
            BaseStrategy::RequestOnly => Some(Procedure::Request),
            BaseStrategy::BuildAndRequestAmalgamated => Some(Procedure::Amalgamate),
        }
    }

    /// The procedure this strategy allows in `phase`: a build-time function alone
    /// runs at build time only, and anything that needs a request runs at request
    /// time only.
    pub open spec fn spec_allowed(self, phase: Phase) -> Option<Procedure> {
        match (self, phase) {
            (BaseStrategy::BuildOnly, Phase::Build) => Some(Procedure::Build),
            (BaseStrategy::RequestOnly, Phase::Request) => Some(Procedure::Request),
            (BaseStrategy::BuildAndRequestAmalgamated, Phase::Request) => Some(
                Procedure::Amalgamate,
            ),
            _ => None,
        }
    }

    /// The procedure that runs everything this strategy declares, if it declares
    /// anything.
    #[verifier::when_used_as_spec(spec_procedure)]
    pub fn procedure(self) -> (procedure: Option<Procedure>)
        ensures
            procedure == self.spec_procedure(),
    {
        match self {
            BaseStrategy::Stateless => None,
            BaseStrategy::BuildOnly => Some(Procedure::Build),
            BaseStrategy::RequestOnly => Some(Procedure::Request),
            BaseStrategy::BuildAndRequestAmalgamated => Some(Procedure::Amalgamate),
        }
    }

    /// The procedure this strategy allows in `phase`, if it allows one there.
    #[verifier::when_used_as_spec(spec_allowed)]
    pub fn allowed(self, phase: Phase) -> (procedure: Option<Procedure>)
        ensures
            procedure == self.spec_allowed(phase),
    {
        match phase {
            Phase::Build => match self {
                BaseStrategy::BuildOnly => Some(Procedure::Build),
                _ => None,
            },
            Phase::Request => match self {
                BaseStrategy::RequestOnly => Some(Procedure::Request),
                BaseStrategy::BuildAndRequestAmalgamated => Some(Procedure::Amalgamate),
                _ => None,
            },
        }
    }
}

impl GenerationStrategy {
    /// The strategy without its incremental part.
    pub open spec fn spec_base(self) -> BaseStrategy {
        match self {
            GenerationStrategy::Stateless => BaseStrategy::Stateless,
            GenerationStrategy::BuildOnly => BaseStrategy::BuildOnly,
            GenerationStrategy::RequestOnly => BaseStrategy::RequestOnly,
            GenerationStrategy::BuildAndRequestAmalgamated => {
                BaseStrategy::BuildAndRequestAmalgamated
            },
            GenerationStrategy::Incremental(base) => base,
        }
    }

    /// Whether paths unknown at build time are generated on their first request.
    pub open spec fn spec_is_incremental(self) -> bool {
        self is Incremental
    }

    /// The procedure to run for a path in `phase`, where `listed` says whether the
    /// path is one of those known at build time. `None` means that the template
    /// declares no generation for that case.
    ///
    /// A listed path, and any path of a template that is not incremental, goes by
    /// the base strategy. A path that an incremental template does not list is
    /// generated at request time with everything the base strategy declares, and
    /// never at build time.
    pub open spec fn spec_plan(self, phase: Phase, listed: bool) -> Option<Procedure> {
        if self.is_incremental() && !listed {
            if phase == Phase::Request {
                self.base().procedure()
            } else {
                None
            }
        } else {
            self.base().allowed(phase)
        }
    }

    /// The strategy without its incremental part.
    #[verifier::when_used_as_spec(spec_base)]
    pub fn base(self) -> (base: BaseStrategy)
        ensures
            base == self.spec_base(),
    {
        match self {
            GenerationStrategy::Stateless => BaseStrategy::Stateless,
            GenerationStrategy::BuildOnly => BaseStrategy::BuildOnly,
            GenerationStrategy::RequestOnly => BaseStrategy::RequestOnly,
            GenerationStrategy::BuildAndRequestAmalgamated => {
                BaseStrategy::BuildAndRequestAmalgamated
            },
            GenerationStrategy::Incremental(base) => base,
        }
    }

    /// Whether paths unknown at build time are generated on their first request.
    #[verifier::when_used_as_spec(spec_is_incremental)]
    pub fn is_incremental(self) -> (incremental: bool)
        ensures
            incremental == self.spec_is_incremental(),
    {
        match self {
            GenerationStrategy::Incremental(_) => true,
            _ => false,
        }
    }

    /// Decides what to run for a path in `phase`, where `listed` says whether the
    /// path is one of those known at build time.
    #[verifier::when_used_as_spec(spec_plan)]
    pub fn plan(self, phase: Phase, listed: bool) -> (procedure: Option<Procedure>)
        ensures
            procedure == self.spec_plan(phase, listed),
    {
        if self.is_incremental() && !listed {
            match phase {
                Phase::Request => self.base().procedure(),
                Phase::Build => None,
            }
        } else {
            self.base().allowed(phase)
        }
    }
}

} // verus!
