//! The view of a declared dependency that the feature walker needs.

use vstd::prelude::*;

verus! {

/// The three kinds a declared dependency can have.
#[derive(Eq, PartialEq, Clone, Debug, Copy, Hash, Structural)]
pub enum DependencyKind {
    /// The 'normal' kind
    Normal,
    /// Those used in tests only
    Development,
    /// Those used in build scripts only
    Build,
    /// A kind this library does not know about
    Unknown,
}

impl Default for DependencyKind {
    /// A dependency declared without a kind is a normal one.
    fn default() -> (r: DependencyKind)
        ensures
            r == DependencyKind::Normal,
    {
        DependencyKind::Normal
    }
}

/// One dependency declared by a package, reduced to the fields the feature
/// walker reads: the underlying crate name, the rename under which the
/// manifest refers to it, and the feature names the manifest requests on it.
#[derive(Clone, Debug)]
pub struct Dependency {
    /// Name of the dependency's crate, as given in its own manifest.
    pub name: String,
    /// If the dependency is renamed, the new name the declaring manifest
    /// uses for it; `None` if it is not renamed.
    pub rename: Option<String>,
    /// The feature names the declaring manifest enables on this dependency.
    pub features: Vec<String>,
    /// Whether this dependency is optional.
    pub optional: bool,
    /// Whether the dependency's default features are used.
    pub uses_default_features: bool,
    /// The kind of dependency this is.
    pub kind: DependencyKind,
}

/// The mathematical value of a [`Dependency`].
pub struct DependencyView {
    /// Name of the dependency's crate.
    pub name: Seq<char>,
    /// The rename the declaring manifest uses, if any.
    pub rename: Option<Seq<char>>,
    /// The feature names requested on this dependency.
    pub features: Seq<Seq<char>>,
    /// Whether this dependency is optional.
    pub optional: bool,
    /// Whether the dependency's default features are used.
    pub uses_default_features: bool,
    /// The kind of dependency this is.
    pub kind: DependencyKind,
}

impl View for Dependency {
    type V = DependencyView;

    open spec fn view(&self) -> DependencyView {
        DependencyView {
            name: self.name@,
            rename: match self.rename {
                Some(r) => Some(r@),
                None => None,
            },
            features: self.features.deep_view(),
            optional: self.optional,
            uses_default_features: self.uses_default_features,
            kind: self.kind,
        }
    }
}

/// The name under which the declaring manifest refers to a dependency: its
/// rename where one is given, else the crate name itself.
pub open spec fn local_name(d: DependencyView) -> Seq<char> {
    match d.rename {
        Some(r) => r,
        None => d.name,
    }
}

} // verus!
