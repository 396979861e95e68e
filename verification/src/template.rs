//! What is configured for a template: its strategy, the paths it knows at build
//! time and how long its states stay fresh.

use vstd::prelude::*;
use crate::key::{PathKey, PathKeyView};
use crate::strategy::{GenerationStrategy, Phase, Procedure};

verus! {

/// The paths of a template that are known at build time. Other paths are legal
/// for an incremental template: they are built when first requested.
#[derive(Debug)]
pub struct BuildPaths {
    paths: Vec<String>,
}

impl View for BuildPaths {
    type V = Set<Seq<char>>;

    /// The set of the listed paths.
    closed spec fn view(&self) -> Set<Seq<char>> {
        Set::new(
            |path: Seq<char>| exists|i: int| 0 <= i < self.paths.len() && self.paths[i]@ == path,
        )
    }
}

impl BuildPaths {
    /// The set of the given paths; a path given twice counts once.
    pub fn new(paths: Vec<String>) -> (listed: BuildPaths)
        ensures
            forall|path: Seq<char>|
                listed@.contains(path) <==> exists|i: int|
                    0 <= i < paths.len() && paths[i]@ == path,
    {
        BuildPaths { paths }
    }

    /// Whether `path` is one of the listed paths.
    pub fn contains(&self, path: &str) -> (listed: bool)
        ensures
            listed == self@.contains(path@),
    {
        let wanted = path.to_owned();
        let mut i: usize = 0;
        while i < self.paths.len()
            invariant
                i <= self.paths.len(),
                wanted@ == path@,
                forall|j: int| 0 <= j < i ==> self.paths[j]@ != path@,
            decreases self.paths.len() - i,
        {
            if self.paths[i] == wanted {
                return true;
            }
            i += 1;
        }
        false
    }
}

/// The configuration of one template. It is fixed when the template is made.
#[derive(Debug)]
pub struct Template {
    strategy: GenerationStrategy,
    build_paths: BuildPaths,
    revalidation_interval: Option<u64>,
}

impl Template {
    /// The generation functions that the template declares.
    pub closed spec fn spec_strategy(&self) -> GenerationStrategy {
        self.strategy
    }

    /// The set of the paths known at build time.
    pub closed spec fn listed(&self) -> Set<Seq<char>> {
        self.build_paths@
    }

    /// After how long a generated state is to be generated anew, if ever.
    pub closed spec fn spec_revalidation_interval(&self) -> Option<u64> {
        self.revalidation_interval
    }

    /// The procedure that generates the state of `key` in `phase`, if the template
    /// declares one for that case: what its strategy plans for the key's path,
    /// listed or not.
    pub open spec fn spec_plan(&self, key: PathKeyView, phase: Phase) -> Option<Procedure> {
        self.strategy().plan(phase, self.listed().contains(key.path))
    }

    /// A template with the given strategy, paths known at build time and
    /// revalidation interval.
    pub fn new(
        strategy: GenerationStrategy,
        build_paths: BuildPaths,
        revalidation_interval: Option<u64>,
    ) -> (template: Template)
        ensures
            template.strategy() == strategy,
            template.listed() == build_paths@,
            template.revalidation_interval() == revalidation_interval,
    {
        Template { strategy, build_paths, revalidation_interval }
    }

    /// The generation functions that the template declares.
    #[verifier::when_used_as_spec(spec_strategy)]
    pub fn strategy(&self) -> (strategy: GenerationStrategy)
        ensures
            strategy == self.spec_strategy(),
    {
        self.strategy
    }

    /// After how long a generated state is to be generated anew, if ever.
    #[verifier::when_used_as_spec(spec_revalidation_interval)]
    pub fn revalidation_interval(&self) -> (interval: Option<u64>)
        ensures
            interval == self.spec_revalidation_interval(),
    {
        self.revalidation_interval
    }

    /// Whether the path of `key` is one of those known at build time.
    pub fn lists(&self, key: &PathKey) -> (listed: bool)
        ensures
            listed == self.listed().contains(key@.path),
    {
        self.build_paths.contains(key.path())
    }

    /// Decides what to run to generate the state of `key` in `phase`.
    pub fn plan(&self, key: &PathKey, phase: Phase) -> (procedure: Option<Procedure>)
        ensures
            procedure == self.spec_plan(key@, phase),
    {
        self.strategy.plan(phase, self.lists(key))
    }
}

} // verus!
