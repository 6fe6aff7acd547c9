//! The typed records of a build-unit graph's profiles and modes.

use vstd::prelude::*;

verus! {

/// The profile settings of one build unit.
#[derive(Clone, Debug)]
pub struct Profile {
    /// The profile name these settings are derived from.
    pub name: String,
    /// The optimization level.
    pub opt_level: String,
    /// The LTO setting.
    pub lto: String,
    /// The codegen units as an integer.
    /// `None` if it should use the compiler's default.
    pub codegen_units: Option<u32>,
    /// The debug information level as an integer.
    /// `None` if it should use the compiler's default (0).
    pub debuginfo: Option<u32>,
    /// Whether or not debug-assertions are enabled.
    pub debug_assertions: bool,
    /// Whether or not overflow-checks are enabled.
    pub overflow_checks: bool,
    /// Whether or not rpath is enabled.
    pub rpath: bool,
    /// Whether or not incremental is enabled.
    pub incremental: bool,
    /// The panic strategy.
    pub panic: PanicStrategy,
}

/// How a unit's code reacts to a panic.
#[derive(Clone, Copy, Debug, PartialEq, Eq)]
pub enum PanicStrategy {
    /// Unwind the stack.
    Unwind,
    /// Abort the process.
    Abort,
}

/// The "mode" of a build unit.
#[derive(Clone, Copy, Debug, PartialEq, Eq)]
pub enum Mode {
    /// Build using the compiler as a test.
    Test,
    /// Build using the compiler.
    Build,
    /// Build using the compiler in "check" mode.
    Check,
    /// Build using the documentation tool.
    Doc,
    /// Test using the documentation tool.
    Doctest,
    /// Represents the execution of a build script.
    RunCustomBuild,
}

} // verus!
