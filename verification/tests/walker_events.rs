use cargo_metadata::{
    Dependency, DependencyKind, FeatureEntry, FeatureVisitor, FeatureWalker, Metadata, Package,
    PackageId, WalkError,
};

/// A visitor that records every callback in order and can be told to decline
/// some features or to abort on some feature.
#[derive(Default, Debug)]
struct EventLog {
    calls: Vec<String>,
    decline_features: Vec<String>,
    abort_on_feature: Option<String>,
}

impl FeatureVisitor for EventLog {
    type Error = String;

    fn visit_missing_dependency(&mut self, dep_name: &str) -> Result<(), Self::Error> {
        self.calls.push(format!("missing_dependency:{dep_name}"));
        Ok(())
    }

    fn visit_missing_package(&mut self, pkg_name: &str) -> Result<(), Self::Error> {
        self.calls.push(format!("missing_package:{pkg_name}"));
        Ok(())
    }

    fn visit_feature(&mut self, package: &Package, feature_name: &str) -> Result<bool, Self::Error> {
        self.calls
            .push(format!("feature:{}:{feature_name}", package.name));
        if self.abort_on_feature.as_deref() == Some(feature_name) {
            return Err(format!("aborted on {feature_name}"));
        }
        Ok(!self.decline_features.iter().any(|f| f == feature_name))
    }

    fn visit_dep(&mut self, package: &Package, dep_name: &str) -> Result<bool, Self::Error> {
        self.calls.push(format!("dep:{}:{dep_name}", package.name));
        Ok(true)
    }

    fn visit_dep_feature(
        &mut self,
        package: &Package,
        dep_name: &str,
        dep_feature: &str,
        weak: bool,
    ) -> Result<bool, Self::Error> {
        self.calls.push(format!(
            "dep_feature:{}:{dep_name}:{dep_feature}:{weak}",
            package.name
        ));
        Ok(true)
    }
}

fn feature(name: &str, requirements: &[&str]) -> FeatureEntry {
    FeatureEntry {
        name: name.to_owned(),
        requirements: requirements.iter().map(|r| r.to_string()).collect(),
    }
}

fn dependency(name: &str, rename: Option<&str>, features: &[&str]) -> Dependency {
    Dependency {
        name: name.to_owned(),
        rename: rename.map(|r| r.to_owned()),
        features: features.iter().map(|f| f.to_string()).collect(),
        optional: true,
        uses_default_features: true,
        kind: DependencyKind::Normal,
    }
}

fn package(name: &str, features: Vec<FeatureEntry>, dependencies: Vec<Dependency>) -> Package {
    Package {
        name: name.to_owned(),
        id: PackageId {
            repr: format!("{name} 0.0.1"),
        },
        features,
        dependencies,
    }
}

fn names(ns: &[&str]) -> Vec<String> {
    ns.iter().map(|n| n.to_string()).collect()
}

#[test]
fn feature_chain_visits_in_order() {
    let root = package(
        "pkg",
        vec![feature("default", &["feat1"]), feature("feat1", &[])],
        Vec::new(),
    );
    let walker = FeatureWalker::new(Metadata {
        packages: vec![root.clone()],
    });
    let mut log = EventLog::default();
    walker
        .walk_package_features(&root, &names(&["default"]), &mut log)
        .unwrap();
    assert_eq!(log.calls, vec!["feature:pkg:default", "feature:pkg:feat1"]);
}

#[test]
fn undeclared_feature_is_silently_complete() {
    let root = package("pkg", vec![feature("default", &[])], Vec::new());
    let walker = FeatureWalker::new(Metadata {
        packages: vec![root.clone()],
    });
    let mut log = EventLog::default();
    walker
        .walk_package_features(&root, &names(&["nope"]), &mut log)
        .unwrap();
    assert!(log.calls.is_empty());
}

#[test]
fn dep_token_expands_manifest_features() {
    let root = package(
        "pkg",
        vec![feature("f", &["dep:optdep"])],
        vec![dependency("optdep", None, &["feat"])],
    );
    let optdep = package("optdep", vec![feature("feat", &[])], Vec::new());
    let walker = FeatureWalker::new(Metadata {
        packages: vec![root.clone(), optdep],
    });
    let mut log = EventLog::default();
    walker
        .walk_package_features(&root, &names(&["f"]), &mut log)
        .unwrap();
    assert_eq!(
        log.calls,
        vec!["feature:pkg:f", "dep:pkg:optdep", "feature:optdep:feat"]
    );
}

#[test]
fn strong_dep_feature_expands_manifest_features() {
    let root = package(
        "pkg",
        vec![feature("f", &["optdep/feat"])],
        vec![dependency("optdep", None, &["other"])],
    );
    let optdep = package(
        "optdep",
        vec![feature("feat", &[]), feature("other", &[])],
        Vec::new(),
    );
    let walker = FeatureWalker::new(Metadata {
        packages: vec![root.clone(), optdep],
    });
    let mut log = EventLog::default();
    walker
        .walk_package_features(&root, &names(&["f"]), &mut log)
        .unwrap();
    assert_eq!(
        log.calls,
        vec![
            "feature:pkg:f",
            "dep_feature:pkg:optdep:feat:false",
            "feature:optdep:feat",
            "feature:optdep:other",
        ]
    );
}

#[test]
fn weak_dep_feature_skips_manifest_features() {
    let root = package(
        "pkg",
        vec![feature("f", &["optdep?/feat"])],
        vec![dependency("optdep", None, &["other"])],
    );
    let optdep = package(
        "optdep",
        vec![feature("feat", &[]), feature("other", &[])],
        Vec::new(),
    );
    let walker = FeatureWalker::new(Metadata {
        packages: vec![root.clone(), optdep],
    });
    let mut log = EventLog::default();
    walker
        .walk_package_features(&root, &names(&["f"]), &mut log)
        .unwrap();
    assert_eq!(
        log.calls,
        vec![
            "feature:pkg:f",
            "dep_feature:pkg:optdep:feat:true",
            "feature:optdep:feat",
        ]
    );
}

#[test]
fn missing_package_stops_expansion() {
    let root = package(
        "pkg",
        vec![
            feature("f", &["dep:optdep"]),
            feature("g", &["optdep/feat"]),
        ],
        vec![dependency("optdep", None, &[])],
    );
    let walker = FeatureWalker::new(Metadata {
        packages: vec![root.clone()],
    });
    let mut log = EventLog::default();
    walker
        .walk_package_features(&root, &names(&["f", "g"]), &mut log)
        .unwrap();
    assert_eq!(
        log.calls,
        vec![
            "feature:pkg:f",
            "dep:pkg:optdep",
            "missing_package:optdep",
            "feature:pkg:g",
            "dep_feature:pkg:optdep:feat:false",
            "missing_package:optdep",
        ]
    );
}

#[test]
fn undeclared_dependency_reports_missing_dependency() {
    let root = package("pkg", vec![feature("f", &["dep:nosuch"])], Vec::new());
    let walker = FeatureWalker::new(Metadata {
        packages: vec![root.clone()],
    });
    let mut log = EventLog::default();
    walker
        .walk_package_features(&root, &names(&["f"]), &mut log)
        .unwrap();
    assert_eq!(log.calls, vec!["feature:pkg:f", "missing_dependency:nosuch"]);
}

#[test]
fn renamed_dependency_resolves_by_local_name() {
    let root = package(
        "pkg",
        vec![feature("f", &["dep:alias"])],
        vec![dependency("realname", Some("alias"), &[])],
    );
    let real = package("realname", Vec::new(), Vec::new());
    let walker = FeatureWalker::new(Metadata {
        packages: vec![root.clone(), real],
    });
    let mut log = EventLog::default();
    walker
        .walk_package_features(&root, &names(&["f"]), &mut log)
        .unwrap();
    assert_eq!(log.calls, vec!["feature:pkg:f", "dep:pkg:alias"]);
}

#[test]
fn declined_feature_stops_but_siblings_continue() {
    let root = package(
        "pkg",
        vec![
            feature("default", &["feat1"]),
            feature("feat1", &[]),
            feature("feat2", &[]),
        ],
        Vec::new(),
    );
    let walker = FeatureWalker::new(Metadata {
        packages: vec![root.clone()],
    });
    let mut log = EventLog {
        decline_features: vec!["default".to_owned()],
        ..EventLog::default()
    };
    walker
        .walk_package_features(&root, &names(&["default", "feat2"]), &mut log)
        .unwrap();
    assert_eq!(log.calls, vec!["feature:pkg:default", "feature:pkg:feat2"]);
}

#[test]
fn aborting_visitor_stops_the_walk() {
    let root = package(
        "pkg",
        vec![
            feature("default", &["feat1"]),
            feature("feat1", &[]),
            feature("feat2", &[]),
        ],
        Vec::new(),
    );
    let walker = FeatureWalker::new(Metadata {
        packages: vec![root.clone()],
    });
    let mut log = EventLog {
        abort_on_feature: Some("feat1".to_owned()),
        ..EventLog::default()
    };
    let r = walker.walk_package_features(&root, &names(&["default", "feat2"]), &mut log);
    assert_eq!(r, Err(WalkError::Visitor("aborted on feat1".to_owned())));
    assert_eq!(log.calls, vec!["feature:pkg:default", "feature:pkg:feat1"]);
}

#[test]
fn malformed_requirement_is_an_error() {
    let root = package("pkg", vec![feature("f", &["a/b/c"])], Vec::new());
    let walker = FeatureWalker::new(Metadata {
        packages: vec![root.clone()],
    });
    let mut log = EventLog::default();
    let r = walker.walk_package_features(&root, &names(&["f"]), &mut log);
    assert_eq!(r, Err(WalkError::MalformedFeature("a/b/c".to_owned())));
    assert_eq!(log.calls, vec!["feature:pkg:f"]);
}

#[test]
fn malformed_manifest_feature_is_an_error() {
    let root = package(
        "pkg",
        vec![feature("f", &["dep:optdep"])],
        vec![dependency("optdep", None, &["dep:other"])],
    );
    let optdep = package("optdep", Vec::new(), Vec::new());
    let walker = FeatureWalker::new(Metadata {
        packages: vec![root.clone(), optdep],
    });
    let mut log = EventLog::default();
    let r = walker.walk_package_features(&root, &names(&["f"]), &mut log);
    assert_eq!(r, Err(WalkError::MalformedFeature("dep:other".to_owned())));
}

#[test]
fn cyclic_features_hit_the_recursion_limit() {
    let root = package(
        "pkg",
        vec![feature("a", &["b"]), feature("b", &["a"])],
        Vec::new(),
    );
    let walker = FeatureWalker::new(Metadata {
        packages: vec![root.clone()],
    });
    let mut log = EventLog::default();
    let r = walker.walk_package_features(&root, &names(&["a"]), &mut log);
    assert_eq!(r, Err(WalkError::RecursionLimit));
}

#[test]
fn repeated_walks_see_identical_call_sequences() {
    let root = package(
        "pkg",
        vec![
            feature("default", &["feat1", "optdep/feat"]),
            feature("feat1", &[]),
        ],
        vec![dependency("optdep", None, &[])],
    );
    let optdep = package("optdep", vec![feature("feat", &[])], Vec::new());
    let walker = FeatureWalker::new(Metadata {
        packages: vec![root.clone(), optdep],
    });
    let mut first = EventLog::default();
    walker
        .walk_package_features(&root, &names(&["default"]), &mut first)
        .unwrap();
    let mut second = EventLog::default();
    walker
        .walk_package_features(&root, &names(&["default"]), &mut second)
        .unwrap();
    assert_eq!(first.calls, second.calls);
    assert!(!first.calls.is_empty());
}

#[test]
fn duplicate_package_names_resolve_to_the_last() {
    let root = package(
        "pkg",
        vec![feature("f", &["dep:twin"])],
        vec![dependency("twin", None, &["feat"])],
    );
    let older = package("twin", vec![feature("feat", &[])], Vec::new());
    let newer = Package {
        name: "twin".to_owned(),
        id: PackageId {
            repr: "twin 2.0.0".to_owned(),
        },
        features: vec![feature("feat", &["inner"]), feature("inner", &[])],
        dependencies: Vec::new(),
    };
    let walker = FeatureWalker::new(Metadata {
        packages: vec![root.clone(), older, newer],
    });
    assert_eq!(
        walker.lookup_by_name("twin").unwrap().id.repr,
        "twin 2.0.0"
    );
    let mut log = EventLog::default();
    walker
        .walk_package_features(&root, &names(&["f"]), &mut log)
        .unwrap();
    assert_eq!(
        log.calls,
        vec![
            "feature:pkg:f",
            "dep:pkg:twin",
            "feature:twin:feat",
            "feature:twin:inner",
        ]
    );
}

#[test]
fn get_feature_looks_up_by_name() {
    let root = package(
        "pkg",
        vec![feature("default", &["feat1"]), feature("feat1", &[])],
        Vec::new(),
    );
    assert_eq!(
        root.get_feature("default"),
        Some(&vec!["feat1".to_owned()])
    );
    assert!(root.get_feature("nope").is_none());
}

#[test]
fn get_dependency_looks_up_by_local_name() {
    let root = package(
        "pkg",
        Vec::new(),
        vec![
            dependency("realname", Some("alias"), &[]),
            dependency("plain", None, &[]),
        ],
    );
    assert_eq!(root.get_dependency("alias").unwrap().name, "realname");
    assert!(root.get_dependency("realname").is_none());
    assert_eq!(root.get_dependency("plain").unwrap().name, "plain");
}
