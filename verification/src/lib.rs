//! Structured access to the data emitted by a package manager's metadata
//! command, centred on a verified walker that expands a package's feature
//! requirements across the dependency graph.

pub mod bare_version;
pub mod dependency;
pub mod diagnostic;
pub mod feature_value;
pub mod libtest;
pub mod package;
pub mod unit_graph;
pub mod visit;

pub use bare_version::{BareVersion, BareVersionError, IntParseError};
pub use dependency::{Dependency, DependencyKind, DependencyView};
pub use diagnostic::{
    Applicability, Diagnostic, DiagnosticCode, DiagnosticSpan, DiagnosticSpanLine,
    DiagnosticSpanMacroExpansion,
};
pub use feature_value::{FeatureValue, FeatureValueView, MalformedFeatureError};
pub use package::{FeatureEntry, FeatureEntryView, Metadata, Package, PackageId, PackageView};
pub use visit::{FeatureVisitor, FeatureWalker, Outcome, Response, VisitEvent, WalkError};
