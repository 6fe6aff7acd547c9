//! The typed records of a compiler diagnostic as emitted in a build-message
//! stream.

use vstd::prelude::*;

verus! {

/// The code of a diagnostic, with its optional explanation.
#[derive(Debug, Clone)]
pub struct DiagnosticCode {
    /// The code itself.
    pub code: String,
    /// An explanation for the code
    pub explanation: Option<String>,
}

/// One source line covered by a diagnostic span.
#[derive(Debug, Clone)]
pub struct DiagnosticSpanLine {
    /// The source text of the line.
    pub text: String,
    /// 1-based, character offset in `text`.
    pub highlight_start: usize,
    /// 1-based, character offset in `text`.
    pub highlight_end: usize,
}

/// The macro expansion a diagnostic span derives from.
#[derive(Debug)]
pub struct DiagnosticSpanMacroExpansion {
    /// span where macro was applied to generate this code; note that
    /// this may itself derive from a macro (if
    /// `span.expansion.is_some()`)
    pub span: DiagnosticSpan,
    /// name of macro that was applied (e.g., "foo!" or "#[derive(Eq)]")
    pub macro_decl_name: String,
    /// span where macro was defined (if known)
    pub def_site_span: Option<DiagnosticSpan>,
}

/// One source span of a diagnostic.
#[derive(Debug)]
pub struct DiagnosticSpan {
    /// The file the span lies in.
    pub file_name: String,
    /// The span's first byte.
    pub byte_start: u32,
    /// The byte one past the span's last one.
    pub byte_end: u32,
    /// 1-based line of the span's start.
    pub line_start: usize,
    /// 1-based line of the span's end.
    pub line_end: usize,
    /// 1-based, character offset of the span's start.
    pub column_start: usize,
    /// 1-based, character offset of the span's end.
    pub column_end: usize,
    /// Is this a "primary" span -- meaning the point, or one of the points,
    /// where the error occurred?
    pub is_primary: bool,
    /// Source text from the start of line_start to the end of line_end.
    pub text: Vec<DiagnosticSpanLine>,
    /// Label that should be placed at this location (if any)
    pub label: Option<String>,
    /// If we are suggesting a replacement, this will contain text
    /// that should be sliced in atop this span.
    pub suggested_replacement: Option<String>,
    /// If the suggestion is approximate
    pub suggestion_applicability: Option<Applicability>,
    /// Macro invocations that created the code at this span, if any.
    pub expansion: Option<Box<DiagnosticSpanMacroExpansion>>,
}

/// How mechanically a suggested replacement can be applied.
#[derive(Debug, Clone)]
pub enum Applicability {
    /// The suggestion can be applied as it stands.
    MachineApplicable,
    /// The suggestion holds placeholders a user must fill in.
    HasPlaceholders,
    /// The suggestion may not be what the user intended.
    MaybeIncorrect,
    /// Nothing is known about how applicable the suggestion is.
    Unspecified,
}

/// One diagnostic message left by the compiler.
#[derive(Debug)]
pub struct Diagnostic {
    /// The message's main text.
    pub message: String,
    /// The diagnostic code, if one is attached.
    pub code: Option<DiagnosticCode>,
    /// "error: internal compiler error", "error", "warning", "note", "help"
    pub level: String,
    /// The source spans the message points at.
    pub spans: Vec<DiagnosticSpan>,
    /// Associated diagnostic messages.
    pub children: Vec<Diagnostic>,
    /// The message as the compiler would render it
    pub rendered: Option<String>,
}

} // verus!
