//! Packages, their feature tables, and the lookups the feature walker makes
//! over them.

use vstd::prelude::*;

use crate::dependency::{local_name, Dependency, DependencyView};

verus! {

/// An opaque identifier for one package in a metadata document.
#[derive(Clone, Debug, PartialEq, Eq, PartialOrd, Ord, Hash)]
pub struct PackageId {
    /// The underlying string representation of the id.
    pub repr: String,
}

impl View for PackageId {
    type V = Seq<char>;

    open spec fn view(&self) -> Seq<char> {
        self.repr@
    }
}

/// One entry of a package's feature table: a feature name mapped to the
/// ordered list of requirement strings activating it entails.
#[derive(Clone, Debug)]
pub struct FeatureEntry {
    /// The feature's name, unique within one package.
    pub name: String,
    /// The requirement tokens the feature enables, in declaration order.
    pub requirements: Vec<String>,
}

/// The mathematical value of a [`FeatureEntry`].
pub struct FeatureEntryView {
    /// The feature's name.
    pub name: Seq<char>,
    /// The requirement tokens the feature enables.
    pub requirements: Seq<Seq<char>>,
}

impl View for FeatureEntry {
    type V = FeatureEntryView;

    open spec fn view(&self) -> FeatureEntryView {
        FeatureEntryView { name: self.name@, requirements: self.requirements.deep_view() }
    }
}

/// One package of a metadata document, reduced to what the feature walker
/// reads: its name, its identifier, its feature table and its declared
/// dependencies.
#[derive(Clone, Debug)]
pub struct Package {
    /// Name as given in the package's manifest.
    pub name: String,
    /// An opaque identifier for the package.
    pub id: PackageId,
    /// The package's feature table, in declaration order.  Feature names are
    /// unique within one package.
    pub features: Vec<FeatureEntry>,
    /// The dependencies the package declares, in declaration order.
    pub dependencies: Vec<Dependency>,
}

/// The mathematical value of a [`Package`].
pub struct PackageView {
    /// The package's name.
    pub name: Seq<char>,
    /// The package's identifier.
    pub id: Seq<char>,
    /// The package's feature table.
    pub features: Seq<FeatureEntryView>,
    /// The package's declared dependencies.
    pub dependencies: Seq<DependencyView>,
}

impl View for Package {
    type V = PackageView;

    open spec fn view(&self) -> PackageView {
        PackageView {
            name: self.name@,
            id: self.id@,
            features: Seq::new(self.features@.len(), |i: int| self.features@[i]@),
            dependencies: Seq::new(self.dependencies@.len(), |i: int| self.dependencies@[i]@),
        }
    }
}

/// A metadata document: the list of all packages of one resolved graph.
#[derive(Clone, Debug)]
pub struct Metadata {
    /// All packages referenced by the document.
    pub packages: Vec<Package>,
}

impl View for Metadata {
    type V = Seq<PackageView>;

    open spec fn view(&self) -> Seq<PackageView> {
        Seq::new(self.packages@.len(), |i: int| self.packages@[i]@)
    }
}

/// Whether two strings hold the same characters.
pub fn str_eq(a: &str, b: &str) -> (r: bool)
    ensures
        r == (a@ == b@),
{
    let na = a.unicode_len();
    let nb = b.unicode_len();
    if na != nb {
        return false;
    }
    let mut i: usize = 0;
    while i < na
        invariant
            i <= na,
            na == a@.len(),
            na == b@.len(),
            forall|j: int| 0 <= j < i ==> a@[j] == b@[j],
        decreases na - i,
    {
        if a.get_char(i) != b.get_char(i) {
            return false;
        }
        i += 1;
    }
    proof {
        assert(a@ =~= b@);
    }
    true
}

/// The requirement list of the first feature-table entry named `name`, if
/// any.  Feature names are unique within a well-formed package, so the first
/// entry is the only one.
pub open spec fn feature_lookup(features: Seq<FeatureEntryView>, name: Seq<char>) -> Option<
    Seq<Seq<char>>,
>
    decreases features.len(),
{
    if features.len() == 0 {
        None
    } else if features[0].name == name {
        Some(features[0].requirements)
    } else {
        feature_lookup(features.drop_first(), name)
    }
}

/// The first declared dependency whose local name (rename, else crate name)
/// is `name`, if any.
pub open spec fn dep_lookup(deps: Seq<DependencyView>, name: Seq<char>) -> Option<DependencyView>
    decreases deps.len(),
{
    if deps.len() == 0 {
        None
    } else if local_name(deps[0]) == name {
        Some(deps[0])
    } else {
        dep_lookup(deps.drop_first(), name)
    }
}

/// The last package named `name` in the package list, if any.  When several
/// packages share one name, the later entry shadows the earlier ones; this
/// mirrors building a name-keyed index by inserting the packages in order.
pub open spec fn package_lookup(packages: Seq<PackageView>, name: Seq<char>) -> Option<PackageView>
    decreases packages.len(),
{
    if packages.len() == 0 {
        None
    } else if packages.last().name == name {
        Some(packages.last())
    } else {
        package_lookup(packages.drop_last(), name)
    }
}

/// `feature_lookup` returns the entry at the least index named `name`.
pub proof fn lemma_feature_lookup_is(features: Seq<FeatureEntryView>, name: Seq<char>, i: int)
    requires
        0 <= i < features.len(),
        features[i].name == name,
        forall|j: int| 0 <= j < i ==> features[j].name != name,
    ensures
        feature_lookup(features, name) == Some(features[i].requirements),
    decreases features.len(),
{
    if i > 0 {
        lemma_feature_lookup_is(features.drop_first(), name, i - 1);
    }
}

/// When no entry is named `name`, `feature_lookup` returns `None`.
pub proof fn lemma_feature_lookup_none(features: Seq<FeatureEntryView>, name: Seq<char>)
    requires
        forall|j: int| 0 <= j < features.len() ==> features[j].name != name,
    ensures
        feature_lookup(features, name) is None,
    decreases features.len(),
{
    if features.len() > 0 {
        lemma_feature_lookup_none(features.drop_first(), name);
    }
}

/// `dep_lookup` returns the dependency at the least index whose local name
/// is `name`.
pub proof fn lemma_dep_lookup_is(deps: Seq<DependencyView>, name: Seq<char>, i: int)
    requires
        0 <= i < deps.len(),
        local_name(deps[i]) == name,
        forall|j: int| 0 <= j < i ==> local_name(deps[j]) != name,
    ensures
        dep_lookup(deps, name) == Some(deps[i]),
    decreases deps.len(),
{
    if i > 0 {
        lemma_dep_lookup_is(deps.drop_first(), name, i - 1);
    }
}

/// When no dependency has local name `name`, `dep_lookup` returns `None`.
pub proof fn lemma_dep_lookup_none(deps: Seq<DependencyView>, name: Seq<char>)
    requires
        forall|j: int| 0 <= j < deps.len() ==> local_name(deps[j]) != name,
    ensures
        dep_lookup(deps, name) is None,
    decreases deps.len(),
{
    if deps.len() > 0 {
        lemma_dep_lookup_none(deps.drop_first(), name);
    }
}

impl Package {
    /// The requirement list of the feature named `name`, if the package
    /// declares such a feature.
    pub fn get_feature(&self, name: &str) -> (r: Option<&Vec<String>>)
        ensures
            match r {
                Some(reqs) => feature_lookup(self@.features, name@) == Some(reqs.deep_view()),
                None => feature_lookup(self@.features, name@) is None,
            },
    {
        let mut i: usize = 0;
        while i < self.features.len()
            invariant
                i <= self.features.len(),
                forall|j: int| 0 <= j < i ==> self@.features[j].name != name@,
            decreases self.features.len() - i,
        {
            if str_eq(self.features[i].name.as_str(), name) {
                proof {
                    lemma_feature_lookup_is(self@.features, name@, i as int);
                }
                return Some(&self.features[i].requirements);
            }
            i += 1;
        }
        proof {
            lemma_feature_lookup_none(self@.features, name@);
        }
        None
    }

    /// The declared dependency to which the manifest refers as `name`:
    /// lookup is by the rename where one is given, else by the crate name.
    pub fn get_dependency(&self, name: &str) -> (r: Option<&Dependency>)
        ensures
            match r {
                Some(d) => dep_lookup(self@.dependencies, name@) == Some(d@),
                None => dep_lookup(self@.dependencies, name@) is None,
            },
    {
        let mut i: usize = 0;
        while i < self.dependencies.len()
            invariant
                i <= self.dependencies.len(),
                forall|j: int| 0 <= j < i ==> local_name(self@.dependencies[j]) != name@,
            decreases self.dependencies.len() - i,
        {
            let matches_name = match &self.dependencies[i].rename {
                Some(r) => str_eq(r.as_str(), name),
                None => str_eq(self.dependencies[i].name.as_str(), name),
            };
            if matches_name {
                proof {
                    lemma_dep_lookup_is(self@.dependencies, name@, i as int);
                }
                return Some(&self.dependencies[i]);
            }
            i += 1;
        }
        proof {
            lemma_dep_lookup_none(self@.dependencies, name@);
        }
        None
    }
}

} // verus!
