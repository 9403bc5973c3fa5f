//! The runtime error container and the error-like values it wraps.

use vstd::prelude::*;
use vstd::string::StringExecFns;

verus! {

/// An error-like value: a piece of display text together with an optional
/// underlying cause, forming a finite, cycle-free cause chain.
///
/// Its view is the sequence of display texts along the chain, this value's
/// own text first; the view is therefore never empty.
#[derive(Debug)]
pub struct ErrorValue {
    message: String,
    cause: Option<Box<ErrorValue>>,
}

spec fn value_chain(v: ErrorValue) -> Seq<Seq<char>>
    decreases v,
{
    match v.cause {
        None => seq![v.message@],
        Some(b) => seq![v.message@] + value_chain(*b),
    }
}

impl View for ErrorValue {
    type V = Seq<Seq<char>>;

    closed spec fn view(&self) -> Seq<Seq<char>> {
        value_chain(*self)
    }
}

impl DeepView for ErrorValue {
    type V = Seq<Seq<char>>;

    open spec fn deep_view(&self) -> Seq<Seq<char>> {
        self.view()
    }
}

/// Law: the cause chain of an error-like value is never empty, whatever its
/// depth; a consumer may walk arbitrarily deep chains but never sees an empty
/// one.
pub proof fn lemma_chain_nonempty(v: ErrorValue)
    ensures
        v@.len() >= 1,
    decreases v,
{
    match v.cause {
        None => {},
        Some(b) => {
            lemma_chain_nonempty(*b);
        },
    }
}

impl ErrorValue {
    /// Wraps a piece of display text as a leaf error-like value with no
    /// underlying cause.
    pub fn new(message: String) -> (r: ErrorValue)
        ensures
            r@ == seq![message@],
    {
        let r = ErrorValue { message, cause: None };
        proof {
            assert(r@ =~= seq![r.message@]);
        }
        r
    }

    /// Wraps display text around an underlying cause.
    pub fn with_cause(message: String, cause: ErrorValue) -> (r: ErrorValue)
        ensures
            r@ == seq![message@] + cause@,
    {
        let r = ErrorValue { message, cause: Some(Box::new(cause)) };
        proof {
            assert(r@ =~= seq![r.message@] + value_chain(*r.cause->0));
        }
        r
    }

    /// The value's own display text.
    pub fn message(&self) -> (r: &str)
        ensures
            r@ == self@[0],
    {
        proof {
            assert(self@[0] == self.message@);
        }
        self.message.as_str()
    }

    /// The text this value displays as: its own message alone, not the chain
    /// below it.
    pub fn render(&self) -> (r: String)
        ensures
            r@ == self@[0],
    {
        proof {
            assert(self@[0] == self.message@);
        }
        String::from_str(self.message.as_str())
    }

    /// The immediate underlying cause, if there is one.
    pub fn cause(&self) -> (r: Option<&ErrorValue>)
        ensures
            r is Some <==> self@.len() > 1,
            r matches Some(c) ==> c@ == self@.skip(1),
    {
        match &self.cause {
            None => {
                proof {
                    assert(self@.len() == 1);
                }
                None
            },
            Some(b) => {
                proof {
                    lemma_chain_nonempty(**b);
                    assert((**b)@ =~= self@.skip(1));
                }
                Some(&**b)
            },
        }
    }

    /// This value followed by all its causes, outermost first. Each element
    /// of the result is the error-like value whose own chain is the matching
    /// suffix of this value's chain.
    pub fn chain(&self) -> (r: Vec<&ErrorValue>)
        ensures
            r@.len() == self@.len(),
            forall|i: int| 0 <= i < r@.len() ==> #[trigger] r@[i]@ == self@.skip(i),
        decreases *self,
    {
        let mut r: Vec<&ErrorValue> = Vec::new();
        r.push(self);
        match &self.cause {
            None => {
                proof {
                    assert(self@.len() == 1);
                    assert(self@.skip(0) =~= self@);
                }
                r
            },
            Some(b) => {
                let mut rest = (&**b).chain();
                r.append(&mut rest);
                proof {
                    assert(self@.skip(0) =~= self@);
                    assert forall|i: int| 1 <= i < r@.len() implies #[trigger] r@[i]@
                        == self@.skip(i) by {
                        assert(r@[i]@ == (**b)@.skip(i - 1));
                        assert((**b)@.skip(i - 1) =~= self@.skip(i));
                    }
                }
                r
            },
        }
    }
}

/// The text that a context string and a source's own display text combine
/// into: the context, a colon and a space, then the source's text.
pub open spec fn spec_attached_text(context: Seq<char>, source_text: Seq<char>) -> Seq<char> {
    context + seq![':', ' '] + source_text
}

/// A context-carrying error container: an owned source error-like value plus
/// a text string describing the operation that failed. Construction cannot
/// fail and the container is immutable afterwards.
#[derive(Debug)]
pub struct EasyError {
    source: ErrorValue,
    context: String,
}

impl EasyError {
    /// The source error-like value this container owns.
    pub closed spec fn spec_source(&self) -> ErrorValue {
        self.source
    }

    /// The context text this container holds.
    pub closed spec fn spec_context(&self) -> Seq<char> {
        self.context@
    }

    /// The text this container renders as.
    pub open spec fn spec_render(&self) -> Seq<char> {
        spec_attached_text(self.spec_context(), self.spec_source()@[0])
    }

    /// Builds a container from any error-like value and a context string;
    /// always succeeds, taking ownership of the source.
    pub fn with_context(source: ErrorValue, context: &str) -> (r: EasyError)
        ensures
            r.spec_source() == source,
            r.spec_context() == context@,
    {
        EasyError { source, context: String::from_str(context) }
    }

    /// A non-owning view of the underlying source error, identical to the
    /// value the container was built from.
    pub fn source(&self) -> (r: &ErrorValue)
        ensures
            *r == self.spec_source(),
    {
        &self.source
    }

    /// The stored context string.
    pub fn context(&self) -> (r: &str)
        ensures
            r@ == self.spec_context(),
    {
        self.context.as_str()
    }

    /// Produces `"{context}: {source's own display text}"`. Rendering never
    /// fails: it always yields text, falling back on the source's own
    /// display text.
    pub fn render(&self) -> (r: String)
        ensures
            r@ == self.spec_render(),
    {
        let head = String::from_str(self.context.as_str());
        let r = head.concat(": ").concat(self.source.message());
        proof {
            reveal_strlit(": ");
            assert(": "@ =~= seq![':', ' ']);
            assert(r@ =~= self.spec_render());
        }
        r
    }

    /// This container seen as an error-like value of its own: it displays as
    /// its rendered text, and its underlying cause is its source, so chains
    /// compose bottom-up without cycles.
    pub fn into_value(self) -> (r: ErrorValue)
        ensures
            r@ == seq![self.spec_render()] + self.spec_source()@,
    {
        let message = self.render();
        ErrorValue::with_cause(message, self.source)
    }

    /// The cause chain below this container: the immediate source first,
    /// then that source's own causes in order, with no bound on depth.
    pub fn cause_chain(&self) -> (r: Vec<&ErrorValue>)
        ensures
            r@.len() == self.spec_source()@.len(),
            forall|i: int| 0 <= i < r@.len() ==> #[trigger] r@[i]@ == self.spec_source()@.skip(
                i,
            ),
    {
        self.source.chain()
    }
}

/// Law: a container holding source `e` and context `c` — the container that
/// `with_context(e, c)` builds — renders as `c`, then `": "`, then `e`'s own
/// display text.
pub proof fn lemma_render_of_with_context(err: EasyError, e: ErrorValue, c: Seq<char>)
    requires
        err.spec_source() == e,
        err.spec_context() == c,
    ensures
        err.spec_render() == c + seq![':', ' '] + e@[0],
{
}

} // verus!
