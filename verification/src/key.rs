//! Identity of a renderable unit: a path under a locale.

use vstd::prelude::*;

verus! {

/// What a [`PathKey`] stands for: the characters of its locale and of its path.
pub struct PathKeyView {
    pub locale: Seq<char>,
    pub path: Seq<char>,
}

/// Identifies one cache entry: a path rendered for a locale.
///
/// A key cannot be changed once it has been made.
#[derive(Clone, Debug, PartialEq, Eq, Hash)]
pub struct PathKey {
    locale: String,
    path: String,
}

impl View for PathKey {
    type V = PathKeyView;

    closed spec fn view(&self) -> PathKeyView {
        PathKeyView { locale: self.locale@, path: self.path@ }
    }
}

impl PathKey {
    /// Makes the key of `path` under `locale`.
    pub fn new(locale: String, path: String) -> (key: PathKey)
        ensures
            key@.locale == locale@,
            key@.path == path@,
    {
        PathKey { locale, path }
    }

    /// The locale of this key.
    pub fn locale(&self) -> (locale: &str)
        ensures
            locale@ == self@.locale,
    {
        self.locale.as_str()
    }

    /// The path of this key.
    pub fn path(&self) -> (path: &str)
        ensures
            path@ == self@.path,
    {
        self.path.as_str()
    }

    /// Whether two keys name the same path under the same locale.
    pub fn same_as(&self, other: &PathKey) -> (same: bool)
        ensures
            same == (self@ == other@),
    {
        self.locale == other.locale && self.path == other.path
    }

    /// A second key for the same path and locale.
    pub fn duplicate(&self) -> (key: PathKey)
        ensures
            key@ == self@,
    {
        PathKey { locale: self.locale.clone(), path: self.path.clone() }
    }
}

} // verus!
