//! The diagnostics the code generators surface to the invoking toolchain.

use vstd::prelude::*;
use vstd::string::StringExecFns;

verus! {

/// A generation-time diagnostic. Malformed generator input is rejected with
/// one of these before any artifact is produced; there is no recovery path.
#[derive(Debug)]
pub enum Diagnostic {
    /// A variant identifier repeats an earlier one; carries the repeated
    /// name.
    DuplicateVariant(String),
    /// The catalog declaration lists no variant at all.
    MissingVariants,
    /// An identifier was expected where the input holds something else, or
    /// the input ended too early.
    ExpectedIdentifier,
    /// Tokens remain after the point where the declaration's grammar ends.
    UnexpectedToken,
    /// The context argument of the rewrite is not a string literal.
    ExpectedStringLiteral,
}

/// The ghost image of a diagnostic, over mathematical text.
pub ghost enum DiagnosticView {
    DuplicateVariant(Seq<char>),
    MissingVariants,
    ExpectedIdentifier,
    UnexpectedToken,
    ExpectedStringLiteral,
}

impl View for Diagnostic {
    type V = DiagnosticView;

    open spec fn view(&self) -> DiagnosticView {
        match self {
            Diagnostic::DuplicateVariant(s) => DiagnosticView::DuplicateVariant(s@),
            Diagnostic::MissingVariants => DiagnosticView::MissingVariants,
            Diagnostic::ExpectedIdentifier => DiagnosticView::ExpectedIdentifier,
            Diagnostic::UnexpectedToken => DiagnosticView::UnexpectedToken,
            Diagnostic::ExpectedStringLiteral => DiagnosticView::ExpectedStringLiteral,
        }
    }
}

impl DeepView for Diagnostic {
    type V = DiagnosticView;

    open spec fn deep_view(&self) -> DiagnosticView {
        self.view()
    }
}

/// The message text of a diagnostic.
pub open spec fn spec_diagnostic_text(d: DiagnosticView) -> Seq<char> {
    match d {
        DiagnosticView::DuplicateVariant(n) => "Duplicate variant name: "@ + n,
        DiagnosticView::MissingVariants => "define_error! requires at least one variant"@,
        DiagnosticView::ExpectedIdentifier => "expected identifier"@,
        DiagnosticView::UnexpectedToken => "unexpected token"@,
        DiagnosticView::ExpectedStringLiteral => "expected string literal"@,
    }
}

impl Diagnostic {
    /// The message surfaced verbatim to the developer.
    pub fn render(&self) -> (r: String)
        ensures
            r@ == spec_diagnostic_text(self@),
    {
        match self {
            Diagnostic::DuplicateVariant(n) => String::from_str("Duplicate variant name: ").concat(
                n.as_str(),
            ),
            Diagnostic::MissingVariants => String::from_str(
                "define_error! requires at least one variant",
            ),
            Diagnostic::ExpectedIdentifier => String::from_str("expected identifier"),
            Diagnostic::UnexpectedToken => String::from_str("unexpected token"),
            Diagnostic::ExpectedStringLiteral => String::from_str("expected string literal"),
        }
    }
}

} // verus!
