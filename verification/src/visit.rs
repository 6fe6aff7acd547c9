//! A verified walker over package features and their dependencies.
//!
//! The walker parses each requirement string of a feature into a
//! [`FeatureValue`], resolves cross-package references through a name-keyed
//! index, invokes the matching callback of a caller-supplied
//! [`FeatureVisitor`], and recurses into further requirements unless the
//! visitor declines.  The exact sequence of callbacks is specified by a
//! family of spec functions ([`package_trace`] and the functions it calls):
//! every walk appends precisely that sequence to the visitor's event log.

use vstd::prelude::*;

use crate::feature_value::{parse_spec, FeatureValue, FeatureValueView};
use crate::package::{
    dep_lookup, feature_lookup, package_lookup, str_eq, Metadata, Package, PackageView,
};

verus! {

/// One observed visitor callback, as recorded in a visitor's event log.
pub enum VisitEvent {
    /// A requirement named a dependency the package never declared.
    MissingDependency { dep_name: Seq<char> },
    /// A declared dependency's package is absent from the index.
    MissingPackage { pkg_name: Seq<char> },
    /// A feature of `package` enables the feature `feature_name`.
    Feature { package: PackageView, feature_name: Seq<char> },
    /// A feature of `package` enables the dependency `dep_name`.
    Dep { package: PackageView, dep_name: Seq<char> },
    /// A feature of `package` enables `dep_feature` on `dep_name`.
    DepFeature { package: PackageView, dep_name: Seq<char>, dep_feature: Seq<char>, weak: bool },
}

/// How a visitor answers one callback: walk on into the callback's own
/// expansion, record it without expanding, or abort the whole walk.
pub enum Response<E> {
    /// Keep walking below this callback.
    Continue,
    /// Record the callback but do not expand below it.
    Stop,
    /// Abort the walk with this error.
    Abort(E),
}

/// How one (sub)walk ends.
pub enum Outcome<E> {
    /// The walk ran to completion.
    Done,
    /// A visitor callback aborted the walk with this error.
    Aborted(E),
    /// This requirement token matched no shape of the grammar where a plain
    /// feature reference was required.
    Malformed(Seq<char>),
    /// The expansion exceeded the walker's depth bound.
    Limit,
}

/// The error a walk returns when it does not run to completion.
#[derive(Clone, Debug, PartialEq, Eq)]
pub enum WalkError<E> {
    /// A visitor callback aborted the walk with this error.
    Visitor(E),
    /// The carried requirement token matched no shape of the grammar where
    /// a plain feature reference was required.  Feature tables read from
    /// unchecked documents can hold such tokens.
    MalformedFeature(String),
    /// The expansion exceeded the walker's depth bound.  The bound is larger
    /// than any chain of distinct (package, feature) pairs, so this arises
    /// only when the feature graph is cyclic.
    RecursionLimit,
}

/// Whether the value a walk returns reports the outcome its trace ends in.
pub open spec fn result_matches<E>(r: Result<(), WalkError<E>>, o: Outcome<E>) -> bool {
    match r {
        Ok(_) => o is Done,
        Err(WalkError::Visitor(e)) => o == Outcome::<E>::Aborted(e),
        Err(WalkError::MalformedFeature(tok)) => o == Outcome::<E>::Malformed(tok@),
        Err(WalkError::RecursionLimit) => o is Limit,
    }
}

/// A visitor over a package's features and their dependencies.
///
/// The two spec functions tie an implementation to the walker's contract:
/// `events` is the log of callbacks the visitor has observed, and `respond`
/// says how the visitor answers a callback after a given log.  Every exec
/// callback appends its event to the log and answers as `respond` says, so
/// the walker's whole callback sequence is determined by `respond` — see
/// [`package_trace`].
pub trait FeatureVisitor {
    /// The error type of a walk.
    type Error;

    /// The callbacks this visitor has observed so far, in order.  An
    /// implementation verified against the walker overrides this with its
    /// own log; the default says nothing was observed.
    open spec fn events(&self) -> Seq<VisitEvent> {
        Seq::<VisitEvent>::empty()
    }

    /// How the visitor answers the callback `event` after having observed
    /// `history`.  An implementation verified against the walker overrides
    /// this with its own policy; the default always walks on.
    open spec fn respond(history: Seq<VisitEvent>, event: VisitEvent) -> Response<Self::Error> {
        Response::<Self::Error>::Continue
    }

    /// Visits a missing dependency: a requirement named a dependency the
    /// package never declared.  This should not happen for valid manifests,
    /// but can happen for a document read from unchecked input.
    ///
    /// Return `Ok(())` to continue the walk, or `Err(…)` to abort it.
    fn visit_missing_dependency(&mut self, dep_name: &str) -> (r: Result<(), Self::Error>)
        ensures
            ({
                let ev = (VisitEvent::MissingDependency { dep_name: dep_name@ });
                &&& final(self).events() == old(self).events().push(ev)
                &&& match r {
                    Ok(_) => !(Self::respond(old(self).events(), ev) is Abort),
                    Err(e) => Self::respond(old(self).events(), ev) == Response::<
                        Self::Error,
                    >::Abort(e),
                }
            }),
    ;

    /// Visits a missing package: a declared dependency whose package is
    /// absent from the index.  This is usually caused by an optional
    /// dependency that the feature selection behind the document never
    /// activated.
    ///
    /// Return `Ok(())` to continue the walk, or `Err(…)` to abort it.
    fn visit_missing_package(&mut self, pkg_name: &str) -> (r: Result<(), Self::Error>)
        ensures
            ({
                let ev = (VisitEvent::MissingPackage { pkg_name: pkg_name@ });
                &&& final(self).events() == old(self).events().push(ev)
                &&& match r {
                    Ok(_) => !(Self::respond(old(self).events(), ev) is Abort),
                    Err(e) => Self::respond(old(self).events(), ev) == Response::<
                        Self::Error,
                    >::Abort(e),
                }
            }),
    ;

    /// Visits a feature on `package` that's enabling another feature
    /// `feature_name` (`feature_name` syntax).
    ///
    /// Return `Ok(walk)` where `walk` says whether to expand the feature's
    /// own requirement list, or `Err(…)` to abort the walk.
    fn visit_feature(&mut self, package: &Package, feature_name: &str) -> (r: Result<
        bool,
        Self::Error,
    >)
        ensures
            ({
                let ev = (VisitEvent::Feature { package: package@, feature_name: feature_name@ });
                &&& final(self).events() == old(self).events().push(ev)
                &&& match r {
                    Ok(true) => Self::respond(old(self).events(), ev) == Response::<
                        Self::Error,
                    >::Continue,
                    Ok(false) => Self::respond(old(self).events(), ev) == Response::<
                        Self::Error,
                    >::Stop,
                    Err(e) => Self::respond(old(self).events(), ev) == Response::<
                        Self::Error,
                    >::Abort(e),
                }
            }),
    ;

    /// Visits a feature on `package` that's enabling its dependency
    /// `dep_name` (`dep:dep_name` syntax).
    ///
    /// Return `Ok(walk)` where `walk` says whether to expand the
    /// dependency's manifest-requested features, or `Err(…)` to abort.
    fn visit_dep(&mut self, package: &Package, dep_name: &str) -> (r: Result<bool, Self::Error>)
        ensures
            ({
                let ev = (VisitEvent::Dep { package: package@, dep_name: dep_name@ });
                &&& final(self).events() == old(self).events().push(ev)
                &&& match r {
                    Ok(true) => Self::respond(old(self).events(), ev) == Response::<
                        Self::Error,
                    >::Continue,
                    Ok(false) => Self::respond(old(self).events(), ev) == Response::<
                        Self::Error,
                    >::Stop,
                    Err(e) => Self::respond(old(self).events(), ev) == Response::<
                        Self::Error,
                    >::Abort(e),
                }
            }),
    ;

    /// Visits a feature on `package` that's enabling feature `dep_feature`
    /// on its dependency `dep_name` (`dep_name/dep_feature` syntax, or
    /// `dep_name?/dep_feature` when `weak`).
    ///
    /// Return `Ok(walk)` where `walk` says whether to expand below this
    /// reference, or `Err(…)` to abort.
    fn visit_dep_feature(
        &mut self,
        package: &Package,
        dep_name: &str,
        dep_feature: &str,
        weak: bool,
    ) -> (r: Result<bool, Self::Error>)
        ensures
            ({
                let ev = (VisitEvent::DepFeature {
                    package: package@,
                    dep_name: dep_name@,
                    dep_feature: dep_feature@,
                    weak,
                });
                &&& final(self).events() == old(self).events().push(ev)
                &&& match r {
                    Ok(true) => Self::respond(old(self).events(), ev) == Response::<
                        Self::Error,
                    >::Continue,
                    Ok(false) => Self::respond(old(self).events(), ev) == Response::<
                        Self::Error,
                    >::Stop,
                    Err(e) => Self::respond(old(self).events(), ev) == Response::<
                        Self::Error,
                    >::Abort(e),
                }
            }),
    ;
}

/// The trace of walking one feature of `pkg`: the callbacks emitted, and the
/// outcome.  `hist` is the visitor's event log before this subwalk; `fuel`
/// bounds how deeply feature expansions may nest.
///
/// An undeclared feature name is silently complete.  Otherwise the feature
/// callback is emitted, and if the visitor continues, each requirement of the
/// feature is parsed and walked in declaration order.
pub open spec fn feature_trace<V: FeatureVisitor>(
    pkgs: Seq<PackageView>,
    pkg: PackageView,
    feature_name: Seq<char>,
    fuel: nat,
    hist: Seq<VisitEvent>,
) -> (Seq<VisitEvent>, Outcome<V::Error>)
    decreases fuel, 0int, 0int,
{
    match feature_lookup(pkg.features, feature_name) {
        None => (Seq::<VisitEvent>::empty(), Outcome::<V::Error>::Done),
        Some(reqs) => {
            let ev = (VisitEvent::Feature { package: pkg, feature_name });
            match V::respond(hist, ev) {
                Response::Abort(e) => (seq![ev], Outcome::<V::Error>::Aborted(e)),
                Response::Stop => (seq![ev], Outcome::<V::Error>::Done),
                Response::Continue => {
                    if fuel == 0 {
                        (seq![ev], Outcome::<V::Error>::Limit)
                    } else {
                        let (t, o) = reqs_trace::<V>(
                            pkgs,
                            pkg,
                            reqs,
                            0,
                            (fuel - 1) as nat,
                            hist.push(ev),
                        );
                        (seq![ev] + t, o)
                    }
                },
            }
        },
    }
}

/// The trace of walking requirements `reqs[i..]` of one feature of `pkg`, in
/// order, stopping at the first requirement that does not run to completion.
pub open spec fn reqs_trace<V: FeatureVisitor>(
    pkgs: Seq<PackageView>,
    pkg: PackageView,
    reqs: Seq<Seq<char>>,
    i: int,
    fuel: nat,
    hist: Seq<VisitEvent>,
) -> (Seq<VisitEvent>, Outcome<V::Error>)
    decreases fuel, 4int, reqs.len() - i,
{
    if i < 0 || i >= reqs.len() {
        (Seq::<VisitEvent>::empty(), Outcome::<V::Error>::Done)
    } else {
        match parse_spec(reqs[i]) {
            None => (Seq::<VisitEvent>::empty(), Outcome::<V::Error>::Malformed(reqs[i])),
            Some(fv) => {
                let (t, o) = value_trace::<V>(pkgs, pkg, fv, fuel, hist);
                if !(o is Done) {
                    (t, o)
                } else {
                    let (t2, o2) = reqs_trace::<V>(pkgs, pkg, reqs, i + 1, fuel, hist + t);
                    (t + t2, o2)
                }
            },
        }
    }
}

/// The trace of walking one parsed requirement of `pkg`: pure dispatch on
/// its shape.
pub open spec fn value_trace<V: FeatureVisitor>(
    pkgs: Seq<PackageView>,
    pkg: PackageView,
    value: FeatureValueView,
    fuel: nat,
    hist: Seq<VisitEvent>,
) -> (Seq<VisitEvent>, Outcome<V::Error>)
    decreases fuel, 3int, 0int,
{
    match value {
        FeatureValueView::Feature { name } => feature_trace::<V>(pkgs, pkg, name, fuel, hist),
        FeatureValueView::Dep { dep_name } => dep_trace::<V>(pkgs, pkg, dep_name, fuel, hist),
        FeatureValueView::DepFeature { dep_name, dep_feature, weak } => dep_feature_trace::<V>(
            pkgs,
            pkg,
            dep_name,
            dep_feature,
            weak,
            fuel,
            hist,
        ),
    }
}

/// The trace of walking a `dep:dep_name` requirement of `pkg`: resolve the
/// dependency in the package's own declaration list, emit the dependency
/// callback, resolve its package in the index, and walk each feature the
/// manifest requests on it.
pub open spec fn dep_trace<V: FeatureVisitor>(
    pkgs: Seq<PackageView>,
    pkg: PackageView,
    dep_name: Seq<char>,
    fuel: nat,
    hist: Seq<VisitEvent>,
) -> (Seq<VisitEvent>, Outcome<V::Error>)
    decreases fuel, 2int, 0int,
{
    match dep_lookup(pkg.dependencies, dep_name) {
        None => {
            let ev = (VisitEvent::MissingDependency { dep_name });
            match V::respond(hist, ev) {
                Response::Abort(e) => (seq![ev], Outcome::<V::Error>::Aborted(e)),
                _ => (seq![ev], Outcome::<V::Error>::Done),
            }
        },
        Some(dependency) => {
            let ev = (VisitEvent::Dep { package: pkg, dep_name });
            match V::respond(hist, ev) {
                Response::Abort(e) => (seq![ev], Outcome::<V::Error>::Aborted(e)),
                Response::Stop => (seq![ev], Outcome::<V::Error>::Done),
                Response::Continue => {
                    match package_lookup(pkgs, dependency.name) {
                        None => {
                            let ev2 = (VisitEvent::MissingPackage { pkg_name: dependency.name });
                            match V::respond(hist.push(ev), ev2) {
                                Response::Abort(e) => (
                                    seq![ev, ev2],
                                    Outcome::<V::Error>::Aborted(e),
                                ),
                                _ => (seq![ev, ev2], Outcome::<V::Error>::Done),
                            }
                        },
                        Some(dep_package) => {
                            let (t, o) = dep_names_trace::<V>(
                                pkgs,
                                dep_package,
                                dependency.features,
                                0,
                                fuel,
                                hist.push(ev),
                            );
                            (seq![ev] + t, o)
                        },
                    }
                },
            }
        },
    }
}

/// The trace of walking the feature names `names[i..]` that a manifest
/// requests on a dependency, against the dependency's package `dep_package`.
/// Each name must parse as a plain feature reference; any other shape is a
/// malformed document.
pub open spec fn dep_names_trace<V: FeatureVisitor>(
    pkgs: Seq<PackageView>,
    dep_package: PackageView,
    names: Seq<Seq<char>>,
    i: int,
    fuel: nat,
    hist: Seq<VisitEvent>,
) -> (Seq<VisitEvent>, Outcome<V::Error>)
    decreases fuel, 1int, names.len() - i,
{
    if i < 0 || i >= names.len() {
        (Seq::<VisitEvent>::empty(), Outcome::<V::Error>::Done)
    } else {
        match parse_spec(names[i]) {
            Some(FeatureValueView::Feature { name }) => {
                let (t, o) = feature_trace::<V>(pkgs, dep_package, name, fuel, hist);
                if !(o is Done) {
                    (t, o)
                } else {
                    let (t2, o2) = dep_names_trace::<V>(
                        pkgs,
                        dep_package,
                        names,
                        i + 1,
                        fuel,
                        hist + t,
                    );
                    (t + t2, o2)
                }
            },
            _ => (Seq::<VisitEvent>::empty(), Outcome::<V::Error>::Malformed(names[i])),
        }
    }
}

/// The trace of walking a `dep_name/dep_feature` (or, when `weak`,
/// `dep_name?/dep_feature`) requirement of `pkg`: resolve the dependency and
/// its package, emit the dependency-feature callback, walk `dep_feature` as
/// a feature of the dependency's package, and — for a strong reference only —
/// also walk each feature the manifest requests on that dependency.
pub open spec fn dep_feature_trace<V: FeatureVisitor>(
    pkgs: Seq<PackageView>,
    pkg: PackageView,
    dep_name: Seq<char>,
    dep_feature: Seq<char>,
    weak: bool,
    fuel: nat,
    hist: Seq<VisitEvent>,
) -> (Seq<VisitEvent>, Outcome<V::Error>)
    decreases fuel, 2int, 0int,
{
    match dep_lookup(pkg.dependencies, dep_name) {
        None => {
            let ev = (VisitEvent::MissingDependency { dep_name });
            match V::respond(hist, ev) {
                Response::Abort(e) => (seq![ev], Outcome::<V::Error>::Aborted(e)),
                _ => (seq![ev], Outcome::<V::Error>::Done),
            }
        },
        Some(dependency) => {
            let ev = (VisitEvent::DepFeature { package: pkg, dep_name, dep_feature, weak });
            match V::respond(hist, ev) {
                Response::Abort(e) => (seq![ev], Outcome::<V::Error>::Aborted(e)),
                Response::Stop => (seq![ev], Outcome::<V::Error>::Done),
                Response::Continue => {
                    match package_lookup(pkgs, dependency.name) {
                        None => {
                            let ev2 = (VisitEvent::MissingPackage { pkg_name: dependency.name });
                            match V::respond(hist.push(ev), ev2) {
                                Response::Abort(e) => (
                                    seq![ev, ev2],
                                    Outcome::<V::Error>::Aborted(e),
                                ),
                                _ => (seq![ev, ev2], Outcome::<V::Error>::Done),
                            }
                        },
                        Some(dep_package) => {
                            match parse_spec(dep_feature) {
                                Some(FeatureValueView::Feature { name }) => {
                                    let (t, o) = feature_trace::<V>(
                                        pkgs,
                                        dep_package,
                                        name,
                                        fuel,
                                        hist.push(ev),
                                    );
                                    if !(o is Done) {
                                        (seq![ev] + t, o)
                                    } else if weak {
                                        (seq![ev] + t, Outcome::<V::Error>::Done)
                                    } else {
                                        let (t2, o2) = dep_names_trace::<V>(
                                            pkgs,
                                            dep_package,
                                            dependency.features,
                                            0,
                                            fuel,
                                            hist.push(ev) + t,
                                        );
                                        (seq![ev] + t + t2, o2)
                                    }
                                },
                                _ => (seq![ev], Outcome::<V::Error>::Malformed(dep_feature)),
                            }
                        },
                    }
                },
            }
        },
    }
}

/// The trace of walking the feature names `names[i..]` on `pkg` from the
/// walker's entry point, each with the full fuel budget, stopping at the
/// first one that does not run to completion.
pub open spec fn package_trace<V: FeatureVisitor>(
    pkgs: Seq<PackageView>,
    pkg: PackageView,
    names: Seq<Seq<char>>,
    i: int,
    fuel: nat,
    hist: Seq<VisitEvent>,
) -> (Seq<VisitEvent>, Outcome<V::Error>)
    decreases names.len() - i,
{
    if i < 0 || i >= names.len() {
        (Seq::<VisitEvent>::empty(), Outcome::<V::Error>::Done)
    } else {
        let (t, o) = feature_trace::<V>(pkgs, pkg, names[i], fuel, hist);
        if !(o is Done) {
            (t, o)
        } else {
            let (t2, o2) = package_trace::<V>(pkgs, pkg, names, i + 1, fuel, hist + t);
            (t + t2, o2)
        }
    }
}

/// `a + b`, saturating at the largest machine value.
pub open spec fn sat_add(a: nat, b: nat) -> nat {
    if a + b > u64::MAX {
        u64::MAX as nat
    } else {
        a + b
    }
}

/// The saturating sum of `acc` and the feature counts of `pkgs[i..]`.
pub open spec fn fuel_from(pkgs: Seq<PackageView>, i: int, acc: nat) -> nat
    decreases pkgs.len() - i,
{
    if i < 0 || i >= pkgs.len() {
        acc
    } else {
        fuel_from(pkgs, i + 1, sat_add(acc, pkgs[i].features.len()))
    }
}

/// The depth bound of one walk: one more than the total number of features
/// declared across the indexed packages and the starting package.  No chain
/// of distinct (package, feature) pairs can be longer, so on an acyclic
/// feature graph the bound is never reached.
pub open spec fn walk_fuel(pkgs: Seq<PackageView>, root: PackageView) -> nat {
    sat_add(fuel_from(pkgs, 0, root.features.len()), 1)
}

/// `a + b`, saturating at `u64::MAX`.
fn sat_add_u64(a: u64, b: u64) -> (r: u64)
    ensures
        r as nat == sat_add(a as nat, b as nat),
{
    if a > u64::MAX - b {
        u64::MAX
    } else {
        a + b
    }
}

/// A type for walking package features and their dependencies.
pub struct FeatureWalker {
    packages: Vec<Package>,
}

impl View for FeatureWalker {
    type V = Seq<PackageView>;

    closed spec fn view(&self) -> Seq<PackageView> {
        Seq::new(self.packages@.len(), |i: int| self.packages@[i]@)
    }
}

impl FeatureWalker {
    /// Creates a walker holding the packages of `metadata` as its
    /// name-keyed index.
    pub fn new(metadata: Metadata) -> (w: FeatureWalker)
        ensures
            w@ == metadata@,
    {
        let w = FeatureWalker { packages: metadata.packages };
        proof {
            assert(w@ =~= metadata@);
        }
        w
    }

    /// The package named `name`, if the index holds one.  When several
    /// packages of the document share one name, the last of them shadows
    /// the others.
    pub fn lookup_by_name(&self, name: &str) -> (r: Option<&Package>)
        ensures
            match r {
                Some(p) => package_lookup(self@, name@) == Some(p@),
                None => package_lookup(self@, name@) is None,
            },
    {
        let mut i: usize = self.packages.len();
        proof {
            assert(self@.subrange(0, i as int) =~= self@);
        }
        while i > 0
            invariant
                i <= self.packages.len(),
                package_lookup(self@, name@) == package_lookup(
                    self@.subrange(0, i as int),
                    name@,
                ),
            decreases i,
        {
            proof {
                assert(self@.subrange(0, i as int).last() == self@[i - 1]);
                assert(self@.subrange(0, i as int).drop_last() =~= self@.subrange(0, i - 1));
            }
            if str_eq(self.packages[i - 1].name.as_str(), name) {
                return Some(&self.packages[i - 1]);
            }
            i -= 1;
        }
        proof {
            assert(self@.subrange(0, 0) =~= Seq::<PackageView>::empty());
        }
        None
    }

    /// Walks the selected features of a package and their dependencies.
    ///
    /// The names are walked in order; the walk of each appends to the
    /// visitor's event log exactly the trace that [`package_trace`] gives,
    /// and the first name whose walk does not run to completion ends the
    /// whole walk with the matching error.
    pub fn walk_package_features<V: FeatureVisitor>(
        &self,
        package: &Package,
        feature_names: &Vec<String>,
        visitor: &mut V,
    ) -> (r: Result<(), WalkError<V::Error>>)
        ensures
            ({
                let (t, o) = package_trace::<V>(
                    self@,
                    package@,
                    feature_names.deep_view(),
                    0,
                    walk_fuel(self@, package@),
                    old(visitor).events(),
                );
                &&& final(visitor).events() == old(visitor).events() + t
                &&& result_matches(r, o)
            }),
    {
        let ghost fuel_n = walk_fuel(self@, package@);
        let mut fuel: u64 = package.features.len() as u64;
        let mut k: usize = 0;
        while k < self.packages.len()
            invariant
                k <= self.packages.len(),
                fuel_from(self@, k as int, fuel as nat) == fuel_from(
                    self@,
                    0,
                    package@.features.len(),
                ),
            decreases self.packages.len() - k,
        {
            fuel = sat_add_u64(fuel, self.packages[k].features.len() as u64);
            k += 1;
        }
        fuel = sat_add_u64(fuel, 1);
        proof {
            assert(fuel as nat == fuel_n);
        }
        let ghost names = feature_names.deep_view();
        let mut i: usize = 0;
        while i < feature_names.len()
            invariant
                i <= feature_names.len(),
                fuel as nat == fuel_n,
                fuel_n == walk_fuel(self@, package@),
                names == feature_names.deep_view(),
                old(visitor).events().len() <= visitor.events().len(),
                ({
                    let delta = visitor.events().subrange(
                        old(visitor).events().len() as int,
                        visitor.events().len() as int,
                    );
                    let (t, o) = package_trace::<V>(
                        self@,
                        package@,
                        names,
                        i as int,
                        fuel_n,
                        visitor.events(),
                    );
                    &&& visitor.events() == old(visitor).events() + delta
                    &&& package_trace::<V>(self@, package@, names, 0, fuel_n, old(visitor).events())
                        == (delta + t, o)
                }),
            decreases feature_names.len() - i,
        {
            let ghost pre = visitor.events();
            let ghost delta_pre = pre.subrange(old(visitor).events().len() as int, pre.len() as int);
            let ghost step = feature_trace::<V>(self@, package@, names[i as int], fuel_n, pre);
            proof {
                assert(names[i as int] == feature_names@[i as int]@);
            }
            match self.walk_feature(package, feature_names[i].as_str(), fuel, visitor) {
                Ok(_) => {},
                Err(e) => {
                    proof {
                        assert(visitor.events() == pre + step.0);
                        assert(package_trace::<V>(self@, package@, names, i as int, fuel_n, pre)
                            == step);
                        assert(package_trace::<V>(
                            self@,
                            package@,
                            names,
                            0,
                            fuel_n,
                            old(visitor).events(),
                        ) == (delta_pre + step.0, step.1));
                        assert(visitor.events() =~= old(visitor).events() + (delta_pre + step.0));
                    }
                    return Err(e);
                },
            }
            proof {
                let rest = package_trace::<V>(
                    self@,
                    package@,
                    names,
                    i + 1,
                    fuel_n,
                    visitor.events(),
                );
                assert(visitor.events() == pre + step.0);
                assert(package_trace::<V>(self@, package@, names, i as int, fuel_n, pre) == (
                    step.0 + rest.0,
                    rest.1,
                ));
                assert(package_trace::<V>(self@, package@, names, 0, fuel_n, old(visitor).events())
                    == (delta_pre + (step.0 + rest.0), rest.1));
                assert(visitor.events() =~= old(visitor).events() + (delta_pre + step.0));
                let delta_new = visitor.events().subrange(
                    old(visitor).events().len() as int,
                    visitor.events().len() as int,
                );
                assert(delta_new =~= delta_pre + step.0);
                assert(delta_new + rest.0 =~= delta_pre + (step.0 + rest.0));
            }
            i += 1;
        }
        proof {
            let delta = visitor.events().subrange(
                old(visitor).events().len() as int,
                visitor.events().len() as int,
            );
            assert(package_trace::<V>(self@, package@, names, i as int, fuel_n, visitor.events()).0
                =~= Seq::<VisitEvent>::empty());
            assert(delta + Seq::<VisitEvent>::empty() =~= delta);
        }
        Ok(())
    }

    /// Walks one feature of `package`: silently complete when the package
    /// does not declare it, else the feature callback and, if the visitor
    /// continues, each of its requirements in order.
    fn walk_feature<V: FeatureVisitor>(
        &self,
        package: &Package,
        feature_name: &str,
        fuel: u64,
        visitor: &mut V,
    ) -> (r: Result<(), WalkError<V::Error>>)
        ensures
            ({
                let (t, o) = feature_trace::<V>(
                    self@,
                    package@,
                    feature_name@,
                    fuel as nat,
                    old(visitor).events(),
                );
                &&& final(visitor).events() == old(visitor).events() + t
                &&& result_matches(r, o)
            }),
        decreases fuel, 0int, 0int,
    {
        let requirements = match package.get_feature(feature_name) {
            None => {
                proof {
                    assert(old(visitor).events() + Seq::<VisitEvent>::empty() =~= old(
                        visitor,
                    ).events());
                }
                return Ok(());
            },
            Some(reqs) => reqs,
        };
        let ghost ev = (VisitEvent::Feature { package: package@, feature_name: feature_name@ });
        let cont = match visitor.visit_feature(package, feature_name) {
            Err(e) => {
                proof {
                    assert(old(visitor).events().push(ev) =~= old(visitor).events() + seq![ev]);
                }
                return Err(WalkError::Visitor(e));
            },
            Ok(c) => c,
        };
        proof {
            assert(old(visitor).events().push(ev) =~= old(visitor).events() + seq![ev]);
        }
        if !cont {
            return Ok(());
        }
        if fuel == 0 {
            return Err(WalkError::RecursionLimit);
        }
        let ghost mid = old(visitor).events().push(ev);
        let ghost (t, o) = reqs_trace::<V>(
            self@,
            package@,
            requirements.deep_view(),
            0,
            (fuel - 1) as nat,
            mid,
        );
        let r = self.walk_reqs(package, requirements, 0, fuel - 1, visitor);
        proof {
            assert(final(visitor).events() == mid + t);
            assert(mid + t =~= old(visitor).events() + (seq![ev] + t));
        }
        r
    }

    /// Walks requirements `reqs[i..]` of one feature of `package`, stopping
    /// at the first that does not run to completion.
    fn walk_reqs<V: FeatureVisitor>(
        &self,
        package: &Package,
        reqs: &Vec<String>,
        i: usize,
        fuel: u64,
        visitor: &mut V,
    ) -> (r: Result<(), WalkError<V::Error>>)
        ensures
            ({
                let (t, o) = reqs_trace::<V>(
                    self@,
                    package@,
                    reqs.deep_view(),
                    i as int,
                    fuel as nat,
                    old(visitor).events(),
                );
                &&& final(visitor).events() == old(visitor).events() + t
                &&& result_matches(r, o)
            }),
        decreases fuel, 4int, reqs.len() - i,
    {
        if i >= reqs.len() {
            proof {
                assert(old(visitor).events() + Seq::<VisitEvent>::empty() =~= old(
                    visitor,
                ).events());
            }
            return Ok(());
        }
        proof {
            assert(reqs.deep_view()[i as int] == reqs@[i as int]@);
        }
        let value = match FeatureValue::parse(reqs[i].as_str()) {
            Err(_) => {
                proof {
                    assert(old(visitor).events() + Seq::<VisitEvent>::empty() =~= old(
                        visitor,
                    ).events());
                }
                return Err(WalkError::MalformedFeature(reqs[i].clone()));
            },
            Ok(v) => v,
        };
        let ghost (t, o) = value_trace::<V>(
            self@,
            package@,
            value@,
            fuel as nat,
            old(visitor).events(),
        );
        match self.walk_feature_value(package, &value, fuel, visitor) {
            Err(e) => {
                return Err(e);
            },
            Ok(_) => {},
        }
        let ghost mid = old(visitor).events() + t;
        let ghost (t2, o2) = reqs_trace::<V>(
            self@,
            package@,
            reqs.deep_view(),
            i + 1,
            fuel as nat,
            mid,
        );
        let r = self.walk_reqs(package, reqs, i + 1, fuel, visitor);
        proof {
            assert(final(visitor).events() == mid + t2);
            assert(mid + t2 =~= old(visitor).events() + (t + t2));
        }
        r
    }

    /// Walks one parsed requirement of `package`: pure dispatch on its
    /// shape.
    fn walk_feature_value<V: FeatureVisitor>(
        &self,
        package: &Package,
        value: &FeatureValue,
        fuel: u64,
        visitor: &mut V,
    ) -> (r: Result<(), WalkError<V::Error>>)
        ensures
            ({
                let (t, o) = value_trace::<V>(
                    self@,
                    package@,
                    value@,
                    fuel as nat,
                    old(visitor).events(),
                );
                &&& final(visitor).events() == old(visitor).events() + t
                &&& result_matches(r, o)
            }),
        decreases fuel, 3int, 0int,
    {
        match value {
            FeatureValue::Feature(name) => self.walk_feature(package, name.as_str(), fuel, visitor),
            FeatureValue::Dep { dep_name } => self.walk_dep(
                package,
                dep_name.as_str(),
                fuel,
                visitor,
            ),
            FeatureValue::DepFeature { dep_name, dep_feature, weak } => self.walk_dep_feature(
                package,
                dep_name.as_str(),
                dep_feature.as_str(),
                *weak,
                fuel,
                visitor,
            ),
        }
    }

    /// Walks a `dep:dep_name` requirement of `package`.
    fn walk_dep<V: FeatureVisitor>(
        &self,
        package: &Package,
        dep_name: &str,
        fuel: u64,
        visitor: &mut V,
    ) -> (r: Result<(), WalkError<V::Error>>)
        ensures
            ({
                let (t, o) = dep_trace::<V>(
                    self@,
                    package@,
                    dep_name@,
                    fuel as nat,
                    old(visitor).events(),
                );
                &&& final(visitor).events() == old(visitor).events() + t
                &&& result_matches(r, o)
            }),
        decreases fuel, 2int, 0int,
    {
        let dependency = match package.get_dependency(dep_name) {
            None => {
                let ghost ev = (VisitEvent::MissingDependency { dep_name: dep_name@ });
                let r = visitor.visit_missing_dependency(dep_name);
                proof {
                    assert(old(visitor).events().push(ev) =~= old(visitor).events() + seq![ev]);
                }
                return match r {
                    Ok(_) => Ok(()),
                    Err(e) => Err(WalkError::Visitor(e)),
                };
            },
            Some(d) => d,
        };
        let ghost ev = (VisitEvent::Dep { package: package@, dep_name: dep_name@ });
        let cont = match visitor.visit_dep(package, dep_name) {
            Err(e) => {
                proof {
                    assert(old(visitor).events().push(ev) =~= old(visitor).events() + seq![ev]);
                }
                return Err(WalkError::Visitor(e));
            },
            Ok(c) => c,
        };
        proof {
            assert(old(visitor).events().push(ev) =~= old(visitor).events() + seq![ev]);
        }
        if !cont {
            return Ok(());
        }
        let ghost mid = old(visitor).events().push(ev);
        let dep_package = match self.lookup_by_name(dependency.name.as_str()) {
            None => {
                let ghost ev2 = (VisitEvent::MissingPackage { pkg_name: dependency.name@ });
                let r = visitor.visit_missing_package(dependency.name.as_str());
                proof {
                    assert(mid.push(ev2) =~= old(visitor).events() + seq![ev, ev2]);
                }
                return match r {
                    Ok(_) => Ok(()),
                    Err(e) => Err(WalkError::Visitor(e)),
                };
            },
            Some(p) => p,
        };
        let ghost (t, o) = dep_names_trace::<V>(
            self@,
            dep_package@,
            dependency.features.deep_view(),
            0,
            fuel as nat,
            mid,
        );
        let r = self.walk_dep_names(dep_package, &dependency.features, 0, fuel, visitor);
        proof {
            assert(final(visitor).events() == mid + t);
            assert(mid + t =~= old(visitor).events() + (seq![ev] + t));
        }
        r
    }

    /// Walks the feature names `names[i..]` that the manifest requests on a
    /// dependency, against that dependency's package.  Each name must parse
    /// as a plain feature reference.
    fn walk_dep_names<V: FeatureVisitor>(
        &self,
        dep_package: &Package,
        names: &Vec<String>,
        i: usize,
        fuel: u64,
        visitor: &mut V,
    ) -> (r: Result<(), WalkError<V::Error>>)
        ensures
            ({
                let (t, o) = dep_names_trace::<V>(
                    self@,
                    dep_package@,
                    names.deep_view(),
                    i as int,
                    fuel as nat,
                    old(visitor).events(),
                );
                &&& final(visitor).events() == old(visitor).events() + t
                &&& result_matches(r, o)
            }),
        decreases fuel, 1int, names.len() - i,
    {
        if i >= names.len() {
            proof {
                assert(old(visitor).events() + Seq::<VisitEvent>::empty() =~= old(
                    visitor,
                ).events());
            }
            return Ok(());
        }
        proof {
            assert(names.deep_view()[i as int] == names@[i as int]@);
        }
        let feature_name = match FeatureValue::parse(names[i].as_str()) {
            Ok(FeatureValue::Feature(name)) => name,
            _ => {
                proof {
                    assert(old(visitor).events() + Seq::<VisitEvent>::empty() =~= old(
                        visitor,
                    ).events());
                }
                return Err(WalkError::MalformedFeature(names[i].clone()));
            },
        };
        let ghost (t, o) = feature_trace::<V>(
            self@,
            dep_package@,
            feature_name@,
            fuel as nat,
            old(visitor).events(),
        );
        match self.walk_feature(dep_package, feature_name.as_str(), fuel, visitor) {
            Err(e) => {
                return Err(e);
            },
            Ok(_) => {},
        }
        let ghost mid = old(visitor).events() + t;
        let ghost (t2, o2) = dep_names_trace::<V>(
            self@,
            dep_package@,
            names.deep_view(),
            i + 1,
            fuel as nat,
            mid,
        );
        let r = self.walk_dep_names(dep_package, names, i + 1, fuel, visitor);
        proof {
            assert(final(visitor).events() == mid + t2);
            assert(mid + t2 =~= old(visitor).events() + (t + t2));
        }
        r
    }

    /// Walks a `dep_name/dep_feature` (or `dep_name?/dep_feature`)
    /// requirement of `package`.
    fn walk_dep_feature<V: FeatureVisitor>(
        &self,
        package: &Package,
        dep_name: &str,
        dep_feature: &str,
        weak: bool,
        fuel: u64,
        visitor: &mut V,
    ) -> (r: Result<(), WalkError<V::Error>>)
        ensures
            ({
                let (t, o) = dep_feature_trace::<V>(
                    self@,
                    package@,
                    dep_name@,
                    dep_feature@,
                    weak,
                    fuel as nat,
                    old(visitor).events(),
                );
                &&& final(visitor).events() == old(visitor).events() + t
                &&& result_matches(r, o)
            }),
        decreases fuel, 2int, 0int,
    {
        let dependency = match package.get_dependency(dep_name) {
            None => {
                let ghost ev = (VisitEvent::MissingDependency { dep_name: dep_name@ });
                let r = visitor.visit_missing_dependency(dep_name);
                proof {
                    assert(old(visitor).events().push(ev) =~= old(visitor).events() + seq![ev]);
                }
                return match r {
                    Ok(_) => Ok(()),
                    Err(e) => Err(WalkError::Visitor(e)),
                };
            },
            Some(d) => d,
        };
        let ghost ev = (VisitEvent::DepFeature {
            package: package@,
            dep_name: dep_name@,
            dep_feature: dep_feature@,
            weak,
        });
        let cont = match visitor.visit_dep_feature(package, dep_name, dep_feature, weak) {
            Err(e) => {
                proof {
                    assert(old(visitor).events().push(ev) =~= old(visitor).events() + seq![ev]);
                }
                return Err(WalkError::Visitor(e));
            },
            Ok(c) => c,
        };
        proof {
            assert(old(visitor).events().push(ev) =~= old(visitor).events() + seq![ev]);
        }
        if !cont {
            return Ok(());
        }
        let ghost mid = old(visitor).events().push(ev);
        let dep_package = match self.lookup_by_name(dependency.name.as_str()) {
            None => {
                let ghost ev2 = (VisitEvent::MissingPackage { pkg_name: dependency.name@ });
                let r = visitor.visit_missing_package(dependency.name.as_str());
                proof {
                    assert(mid.push(ev2) =~= old(visitor).events() + seq![ev, ev2]);
                }
                return match r {
                    Ok(_) => Ok(()),
                    Err(e) => Err(WalkError::Visitor(e)),
                };
            },
            Some(p) => p,
        };
        let parsed = match FeatureValue::parse(dep_feature) {
            Ok(FeatureValue::Feature(name)) => name,
            _ => {
                return Err(WalkError::MalformedFeature(dep_feature.to_owned()));
            },
        };
        let ghost (t, o) = feature_trace::<V>(
            self@,
            dep_package@,
            parsed@,
            fuel as nat,
            mid,
        );
        match self.walk_feature(dep_package, parsed.as_str(), fuel, visitor) {
            Err(e) => {
                proof {
                    assert(final(visitor).events() == mid + t);
                    assert(mid + t =~= old(visitor).events() + (seq![ev] + t));
                }
                return Err(e);
            },
            Ok(_) => {},
        }
        proof {
            assert(visitor.events() == mid + t);
            assert(mid + t =~= old(visitor).events() + (seq![ev] + t));
        }
        if weak {
            return Ok(());
        }
        let ghost mid2 = mid + t;
        let ghost (t2, o2) = dep_names_trace::<V>(
            self@,
            dep_package@,
            dependency.features.deep_view(),
            0,
            fuel as nat,
            mid2,
        );
        let r = self.walk_dep_names(dep_package, &dependency.features, 0, fuel, visitor);
        proof {
            assert(final(visitor).events() == mid2 + t2);
            assert(mid2 + t2 =~= old(visitor).events() + (seq![ev] + t + t2));
            assert(seq![ev] + t + t2 =~= seq![ev] + (t + t2));
        }
        r
    }
}

/// Declining a feature prevents its expansion: when the visitor answers
/// `Stop` for a declared feature, the walk of that feature emits exactly the
/// one feature callback, runs to completion, and nothing below the feature's
/// requirement list is visited.
pub proof fn lemma_stop_prevents_expansion<V: FeatureVisitor>(
    pkgs: Seq<PackageView>,
    pkg: PackageView,
    feature_name: Seq<char>,
    fuel: nat,
    hist: Seq<VisitEvent>,
)
    requires
        feature_lookup(pkg.features, feature_name) is Some,
        V::respond(hist, (VisitEvent::Feature { package: pkg, feature_name })) == Response::<
            V::Error,
        >::Stop,
    ensures
        feature_trace::<V>(pkgs, pkg, feature_name, fuel, hist) == (
            seq![(VisitEvent::Feature { package: pkg, feature_name })],
            Outcome::<V::Error>::Done,
        ),
{
}

/// Sibling feature names are walked independently: however the walk of
/// `names[i]` went about expanding or declining, as long as it ran to
/// completion the walk goes on to the remaining names, continuing from the
/// event log the completed walk left behind.
pub proof fn lemma_siblings_walk_independently<V: FeatureVisitor>(
    pkgs: Seq<PackageView>,
    pkg: PackageView,
    names: Seq<Seq<char>>,
    i: int,
    fuel: nat,
    hist: Seq<VisitEvent>,
)
    requires
        0 <= i < names.len(),
        feature_trace::<V>(pkgs, pkg, names[i], fuel, hist).1 is Done,
    ensures
        package_trace::<V>(pkgs, pkg, names, i, fuel, hist) == ({
            let t = feature_trace::<V>(pkgs, pkg, names[i], fuel, hist).0;
            let rest = package_trace::<V>(pkgs, pkg, names, i + 1, fuel, hist + t);
            (t + rest.0, rest.1)
        }),
{
}

/// A walk is deterministic: the callbacks it appends are a function of the
/// package table, the starting package, the feature names, and the visitor
/// type's response function alone.  Together with the contract of
/// [`FeatureWalker::walk_package_features`], walking the same package and
/// feature names twice against fresh visitors of one type produces two
/// identical callback sequences.
pub proof fn lemma_walk_trace_deterministic<V: FeatureVisitor>(
    pkgs: Seq<PackageView>,
    pkg: PackageView,
    names: Seq<Seq<char>>,
    hist1: Seq<VisitEvent>,
    hist2: Seq<VisitEvent>,
)
    requires
        hist1 == hist2,
    ensures
        package_trace::<V>(pkgs, pkg, names, 0, walk_fuel(pkgs, pkg), hist1) == package_trace::<
            V,
        >(pkgs, pkg, names, 0, walk_fuel(pkgs, pkg), hist2),
{
}

} // verus!
