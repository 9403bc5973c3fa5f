//! The context-attaching rewrite: its generation-time check and the runtime
//! meaning of the code it emits.

use vstd::prelude::*;

use crate::diagnostics::Diagnostic;
use crate::diagnostics::DiagnosticView;
use crate::error::EasyError;
use crate::error::ErrorValue;
use crate::tokens::MacroToken;
use crate::tokens::TokenView;

verus! {

/// What the rewrite decides from its context argument: the context text to
/// attach when the argument is a string literal, and the diagnostic it
/// surfaces for any other argument.
pub open spec fn spec_try_easy(arg: TokenView) -> Result<Seq<char>, DiagnosticView> {
    match arg {
        TokenView::Text(s) => Ok(s),
        _ => Err(DiagnosticView::ExpectedStringLiteral),
    }
}

/// The generation-time check of the rewrite's second argument. The fallible
/// expression itself is host syntax that the front end carries through
/// untouched; what the generator decides is whether the context argument is
/// a string literal, and with which text. On success the returned text is
/// the context the emitted code attaches; on failure no artifact is
/// produced.
pub fn try_easy(context_arg: &MacroToken) -> (r: Result<String, Diagnostic>)
    ensures
        r is Ok <==> context_arg@ is Text,
        r matches Ok(s) ==> spec_try_easy(context_arg@) matches Ok(t) && s@ == t,
        r matches Err(d) ==> spec_try_easy(context_arg@) matches Err(e) && d@ == e,
{
    match context_arg {
        MacroToken::Text(s) => Ok(s.clone()),
        _ => Err(Diagnostic::ExpectedStringLiteral),
    }
}

/// The runtime meaning of the emitted code: evaluate the fallible outcome;
/// on success yield the success value unchanged, with nothing wrapped or
/// propagated; on failure wrap the failure value with the given context and
/// hand the container back for the enclosing function to propagate.
pub fn attach_context<T>(outcome: Result<T, ErrorValue>, context: &str) -> (r: Result<
    T,
    EasyError,
>)
    ensures
        r is Ok <==> outcome is Ok,
        outcome matches Ok(v) ==> r matches Ok(w) && w == v,
        outcome matches Err(e) ==> r matches Err(err) && err.spec_source() == e
            && err.spec_context() == context@,
{
    match outcome {
        Ok(v) => Ok(v),
        Err(e) => Err(EasyError::with_context(e, context)),
    }
}

} // verus!
