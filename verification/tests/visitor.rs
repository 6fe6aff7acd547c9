use std::collections::{BTreeMap, BTreeSet};

use cargo_metadata::{
    Dependency, DependencyKind, FeatureEntry, FeatureValue, FeatureVisitor, FeatureWalker,
    Metadata, Package, PackageId,
};

#[derive(Default, Debug)]
struct TransitiveFeatureCollector {
    features: BTreeMap<PackageId, BTreeSet<FeatureValue>>,
    err_on_missing: bool,
}

impl TransitiveFeatureCollector {
    fn new(err_on_missing: bool) -> Self {
        Self {
            features: BTreeMap::default(),
            err_on_missing,
        }
    }

    fn collect_feature_value(&mut self, package_id: PackageId, feature_value: FeatureValue) {
        self.features
            .entry(package_id)
            .or_default()
            .insert(feature_value);
    }
}

impl FeatureVisitor for TransitiveFeatureCollector {
    type Error = String;

    fn visit_missing_dependency(&mut self, dep_name: &str) -> Result<(), Self::Error> {
        if self.err_on_missing {
            Err(format!("missing dependency: {dep_name:?}"))
        } else {
            Ok(())
        }
    }

    fn visit_missing_package(&mut self, pkg_name: &str) -> Result<(), Self::Error> {
        if self.err_on_missing {
            Err(format!("missing package: {pkg_name:?}"))
        } else {
            Ok(())
        }
    }

    fn visit_feature(&mut self, package: &Package, feature_name: &str) -> Result<bool, Self::Error> {
        self.collect_feature_value(
            package.id.clone(),
            FeatureValue::Feature(feature_name.to_owned()),
        );

        Ok(true)
    }

    fn visit_dep(&mut self, package: &Package, dep_name: &str) -> Result<bool, Self::Error> {
        self.collect_feature_value(
            package.id.clone(),
            FeatureValue::Dep {
                dep_name: dep_name.to_owned(),
            },
        );

        Ok(true)
    }

    fn visit_dep_feature(
        &mut self,
        package: &Package,
        dep_name: &str,
        dep_feature: &str,
        weak: bool,
    ) -> Result<bool, Self::Error> {
        self.collect_feature_value(
            package.id.clone(),
            FeatureValue::DepFeature {
                dep_name: dep_name.to_owned(),
                dep_feature: dep_feature.to_owned(),
                weak,
            },
        );

        Ok(true)
    }
}

fn pkg_id(repr: &str) -> PackageId {
    PackageId {
        repr: repr.to_owned(),
    }
}

fn feature(name: &str, requirements: &[&str]) -> FeatureEntry {
    FeatureEntry {
        name: name.to_owned(),
        requirements: requirements.iter().map(|r| r.to_string()).collect(),
    }
}

fn dependency(name: &str, optional: bool) -> Dependency {
    Dependency {
        name: name.to_owned(),
        rename: None,
        features: Vec::new(),
        optional,
        uses_default_features: true,
        kind: DependencyKind::Normal,
    }
}

fn root_package() -> Package {
    Package {
        name: "all".to_owned(),
        id: pkg_id("all 0.0.1"),
        features: vec![
            feature("default", &["feat1"]),
            feature("feat1", &["bitflags"]),
            feature("feat2", &[]),
            feature("bitflags", &["dep:bitflags"]),
            feature("optdep", &["dep:optdep"]),
            feature("opt-feat-strong", &["optdep/feat"]),
            feature("opt-feat-weak", &["optdep?/feat"]),
        ],
        dependencies: vec![dependency("bitflags", false), dependency("optdep", true)],
    }
}

fn bitflags_package() -> Package {
    Package {
        name: "bitflags".to_owned(),
        id: pkg_id("bitflags 2.0.0"),
        features: Vec::new(),
        dependencies: Vec::new(),
    }
}

fn optdep_package() -> Package {
    Package {
        name: "optdep".to_owned(),
        id: pkg_id("optdep 0.0.1"),
        features: vec![feature("feat", &[])],
        dependencies: Vec::new(),
    }
}

/// The document as read without activating `optdep`: the optional
/// dependency's package is absent.
fn metadata_without_optdep() -> Metadata {
    Metadata {
        packages: vec![root_package(), bitflags_package()],
    }
}

/// The document as read with a feature selection that activates `optdep`.
fn metadata_with_optdep() -> Metadata {
    Metadata {
        packages: vec![root_package(), bitflags_package(), optdep_package()],
    }
}

#[test]
fn all_features() {
    let root = root_package();
    let names: Vec<String> = root.features.iter().map(|f| f.name.clone()).collect();
    let walker = FeatureWalker::new(metadata_without_optdep());

    let mut collector = TransitiveFeatureCollector::new(false);

    let mut features = match walker.walk_package_features(&root, &names, &mut collector) {
        Ok(()) => collector.features,
        Err(err) => panic!("{err:?}"),
    };
    assert_eq!(features.len(), 1);

    let package_features = features.remove(&root.id).unwrap();
    assert_eq!(
        package_features,
        BTreeSet::from_iter([
            FeatureValue::Feature("bitflags".to_owned()),
            FeatureValue::Feature("default".to_owned()),
            FeatureValue::Feature("feat1".to_owned()),
            FeatureValue::Feature("feat2".to_owned()),
            FeatureValue::Feature("opt-feat-strong".to_owned()),
            FeatureValue::Feature("opt-feat-weak".to_owned()),
            FeatureValue::Feature("optdep".to_owned()),
            FeatureValue::Dep {
                dep_name: "bitflags".to_owned(),
            },
            FeatureValue::Dep {
                dep_name: "optdep".to_owned(),
            },
            FeatureValue::DepFeature {
                dep_name: "optdep".to_owned(),
                dep_feature: "feat".to_owned(),
                weak: false,
            },
            FeatureValue::DepFeature {
                dep_name: "optdep".to_owned(),
                dep_feature: "feat".to_owned(),
                weak: true,
            },
        ])
    );
}

#[test]
fn default_features() {
    let root = root_package();
    let walker = FeatureWalker::new(metadata_without_optdep());

    let mut collector = TransitiveFeatureCollector::new(false);

    let mut features =
        match walker.walk_package_features(&root, &vec!["default".to_owned()], &mut collector) {
            Ok(()) => collector.features,
            Err(err) => panic!("{err:?}"),
        };
    assert_eq!(features.len(), 1);

    let package_features = features.remove(&root.id).unwrap();
    assert_eq!(
        package_features,
        BTreeSet::from_iter([
            FeatureValue::Feature("bitflags".to_owned()),
            FeatureValue::Feature("default".to_owned()),
            FeatureValue::Feature("feat1".to_owned()),
            FeatureValue::Dep {
                dep_name: "bitflags".to_owned(),
            },
        ])
    );
}

#[test]
fn strong_dep_feature() {
    let root = root_package();
    // The document must activate `optdep`, else its package is missing.
    let walker = FeatureWalker::new(metadata_with_optdep());

    let mut collector = TransitiveFeatureCollector::new(false);

    let mut features = match walker.walk_package_features(
        &root,
        &vec!["opt-feat-strong".to_owned()],
        &mut collector,
    ) {
        Ok(()) => collector.features,
        Err(err) => panic!("{err:?}"),
    };
    assert_eq!(features.len(), 2);

    let package_features = features.remove(&root.id).unwrap();
    assert_eq!(
        package_features,
        BTreeSet::from_iter([
            FeatureValue::Feature("opt-feat-strong".to_owned()),
            FeatureValue::DepFeature {
                dep_name: "optdep".to_owned(),
                dep_feature: "feat".to_owned(),
                weak: false,
            },
        ])
    );
}

#[test]
fn weak_dep_feature() {
    let root = root_package();
    // The document must activate `optdep`, else its package is missing.
    let walker = FeatureWalker::new(metadata_with_optdep());

    let mut collector = TransitiveFeatureCollector::new(false);

    let mut features = match walker.walk_package_features(
        &root,
        &vec!["opt-feat-weak".to_owned()],
        &mut collector,
    ) {
        Ok(()) => collector.features,
        Err(err) => panic!("{err:?}"),
    };
    assert_eq!(features.len(), 2);

    let package_features = features.remove(&root.id).unwrap();
    assert_eq!(
        package_features,
        BTreeSet::from_iter([
            FeatureValue::Feature("opt-feat-weak".to_owned()),
            FeatureValue::DepFeature {
                dep_name: "optdep".to_owned(),
                dep_feature: "feat".to_owned(),
                weak: true,
            },
        ])
    );
}
