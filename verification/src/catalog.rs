//! The catalog declaration: parsing its input, validating the variant list,
//! and the catalog of named failure reasons it declares.

use vstd::prelude::*;

use crate::diagnostics::Diagnostic;
use crate::diagnostics::DiagnosticView;
use crate::error::EasyError;
use crate::error::ErrorValue;
use crate::tokens::MacroToken;
use crate::tokens::TokenView;

verus! {

/// The ghost image of a declared catalog: its type name and its ordered
/// variant names.
pub ghost struct CatalogView {
    pub name: Seq<char>,
    pub variants: Seq<Seq<char>>,
}

/// Parses the comma-separated variant identifiers that follow the catalog
/// name and its first comma. A trailing comma is accepted and the list may
/// be empty, but the list ends only with the input: a non-identifier in an
/// identifier position is rejected, and so is a leftover token after a
/// variant that no comma follows.
pub open spec fn spec_parse_variants(t: Seq<TokenView>) -> Result<Seq<Seq<char>>, DiagnosticView>
    decreases t.len(),
{
    if t.len() == 0 {
        Ok(Seq::empty())
    } else if !(t[0] is Ident) {
        Err(DiagnosticView::ExpectedIdentifier)
    } else if t.len() == 1 {
        Ok(seq![t[0]->Ident_0])
    } else if t[1] is Comma {
        match spec_parse_variants(t.skip(2)) {
            Ok(rest) => Ok(seq![t[0]->Ident_0] + rest),
            Err(d) => Err(d),
        }
    } else {
        Err(DiagnosticView::UnexpectedToken)
    }
}

/// Parses a whole catalog declaration: a name identifier, optionally
/// followed by a comma and a variant list.
pub open spec fn spec_parse_declaration(t: Seq<TokenView>) -> Result<
    (Seq<char>, Seq<Seq<char>>),
    DiagnosticView,
> {
    if t.len() == 0 || !(t[0] is Ident) {
        Err(DiagnosticView::ExpectedIdentifier)
    } else if t.len() == 1 {
        Ok((t[0]->Ident_0, Seq::empty()))
    } else if t[1] is Comma {
        match spec_parse_variants(t.skip(2)) {
            Ok(vs) => Ok((t[0]->Ident_0, vs)),
            Err(d) => Err(d),
        }
    } else {
        Err(DiagnosticView::UnexpectedToken)
    }
}

/// The names that repeat an earlier entry, in the order the repeats stand in
/// the list; a name standing three times is reported twice.
pub open spec fn spec_duplicates(vs: Seq<Seq<char>>) -> Seq<Seq<char>>
    decreases vs.len(),
{
    if vs.len() == 0 {
        Seq::empty()
    } else if vs.drop_last().contains(vs.last()) {
        spec_duplicates(vs.drop_last()).push(vs.last())
    } else {
        spec_duplicates(vs.drop_last())
    }
}

/// All names in the list differ from one another.
pub open spec fn spec_all_distinct(vs: Seq<Seq<char>>) -> bool {
    forall|i: int, j: int| 0 <= i < j < vs.len() ==> vs[i] != vs[j]
}

/// Law: a variant list has no repeated name exactly when its duplicate
/// report is empty.
pub proof fn lemma_distinct_iff_no_duplicates(vs: Seq<Seq<char>>)
    ensures
        spec_all_distinct(vs) <==> spec_duplicates(vs).len() == 0,
    decreases vs.len(),
{
    if vs.len() == 0 {
    } else {
        let prefix = vs.drop_last();
        lemma_distinct_iff_no_duplicates(prefix);
        if spec_all_distinct(vs) {
            assert(!prefix.contains(vs.last())) by {
                if prefix.contains(vs.last()) {
                    let i = choose|i: int| 0 <= i < prefix.len() && prefix[i] == vs.last();
                    assert(vs[i] == vs[vs.len() - 1]);
                }
            }
            assert(spec_all_distinct(prefix));
        }
        if spec_duplicates(vs).len() == 0 {
            assert(spec_duplicates(prefix).len() == 0);
            assert(!prefix.contains(vs.last()));
            assert forall|i: int, j: int| 0 <= i < j < vs.len() implies vs[i] != vs[j] by {
                if j == vs.len() - 1 {
                    assert(prefix[i] == vs[i]);
                    if vs[i] == vs.last() {
                        assert(prefix.contains(vs.last()));
                    }
                } else {
                    assert(prefix[i] == vs[i] && prefix[j] == vs[j]);
                }
            }
        }
    }
}

/// Law: a declaration that parses generates a catalog exactly when it lists
/// at least one variant and repeats no name; a declaration with a repeated
/// name is rejected for the repeat, never for emptiness, since a list with a
/// repeat cannot be empty.
pub proof fn lemma_generation_succeeds_iff(t: Seq<TokenView>)
    requires
        spec_parse_declaration(t) is Ok,
    ensures
        spec_define_error(t) is Ok <==> (spec_parse_declaration(t)->Ok_0.1.len() > 0
            && spec_all_distinct(spec_parse_declaration(t)->Ok_0.1)),
{
    let vs = spec_parse_declaration(t)->Ok_0.1;
    lemma_distinct_iff_no_duplicates(vs);
}

/// The outcome the catalog generator decides for given input tokens: the
/// declaration is parsed; every repeated variant name is reported, one
/// diagnostic per repeat; an empty variant list is reported only when no
/// name repeats — a list with a repeat cannot be empty; otherwise the
/// catalog is declared.
pub open spec fn spec_define_error(t: Seq<TokenView>) -> Result<CatalogView, Seq<DiagnosticView>> {
    match spec_parse_declaration(t) {
        Err(d) => Err(seq![d]),
        Ok((name, vs)) => {
            if spec_duplicates(vs).len() > 0 {
                Err(
                    spec_duplicates(vs).map_values(
                        |n: Seq<char>| DiagnosticView::DuplicateVariant(n),
                    ),
                )
            } else if vs.len() == 0 {
                Err(seq![DiagnosticView::MissingVariants])
            } else {
                Ok(CatalogView { name, variants: vs })
            }
        },
    }
}

/// A declared catalog of named failure reasons: a closed set of unit cases,
/// each rendering as its own identifier name. A value of this type only
/// arises from a declaration that passed validation, so it always holds at
/// least one variant and repeats no name.
#[derive(Debug)]
pub struct ErrorCatalog {
    name: String,
    variants: Vec<String>,
}

impl View for ErrorCatalog {
    type V = CatalogView;

    closed spec fn view(&self) -> CatalogView {
        CatalogView { name: self.name@, variants: self.variants.deep_view() }
    }
}

impl ErrorCatalog {
    /// Well-formedness: at least one variant, and no repeated names.
    pub open spec fn wf(&self) -> bool {
        self@.variants.len() > 0 && spec_all_distinct(self@.variants)
    }

    /// The catalog's type name.
    pub fn name(&self) -> (r: &str)
        ensures
            r@ == self@.name,
    {
        self.name.as_str()
    }

    /// How many variants the catalog declares.
    pub fn variant_count(&self) -> (r: usize)
        ensures
            r == self@.variants.len(),
    {
        self.variants.len()
    }

    /// The identifier name of variant `i`, which is also the text that case
    /// renders as.
    pub fn variant_name(&self, i: usize) -> (r: &str)
        requires
            i < self@.variants.len(),
        ensures
            r@ == self@.variants[i as int],
    {
        self.variants[i].as_str()
    }

    /// Converts case `i` of the catalog into a context-carrying container:
    /// the case adopts its own identifier name as the context string, and
    /// the source is the case itself, displaying as that same name.
    pub fn variant_error(&self, i: usize) -> (r: EasyError)
        requires
            i < self@.variants.len(),
        ensures
            r.spec_context() == self@.variants[i as int],
            r.spec_source()@ == seq![self@.variants[i as int]],
    {
        let source = ErrorValue::new(self.variants[i].clone());
        EasyError::with_context(source, self.variants[i].as_str())
    }
}

/// Collects one duplicate-name diagnostic for each repeated variant name,
/// in the order the repeats stand in the list.
fn collect_duplicates(variants: &Vec<String>) -> (r: Vec<Diagnostic>)
    ensures
        r@.len() == spec_duplicates(variants.deep_view()).len(),
        forall|k: int| 0 <= k < r@.len() ==> #[trigger] r@[k]@ == DiagnosticView::DuplicateVariant(
            spec_duplicates(variants.deep_view())[k],
        ),
{
    let ghost vd = variants.deep_view();
    let mut r: Vec<Diagnostic> = Vec::new();
    let mut i: usize = 0;
    while i < variants.len()
        invariant
            i <= variants.len(),
            vd == variants.deep_view(),
            r@.len() == spec_duplicates(vd.take(i as int)).len(),
            forall|k: int| 0 <= k < r@.len() ==> #[trigger] r@[k]@
                == DiagnosticView::DuplicateVariant(spec_duplicates(vd.take(i as int))[k]),
        decreases variants.len() - i,
    {
        let mut dup = false;
        let mut j: usize = 0;
        while j < i
            invariant
                j <= i < variants.len(),
                vd == variants.deep_view(),
                dup <==> exists|l: int| 0 <= l < j && vd[l] == vd[i as int],
            decreases i - j,
        {
            let same = variants[j] == variants[i];
            proof {
                assert(vd[j as int] == variants@[j as int]@);
                assert(vd[i as int] == variants@[i as int]@);
            }
            if same {
                dup = true;
            }
            j += 1;
        }
        proof {
            assert(vd.take(i as int + 1).drop_last() =~= vd.take(i as int));
            assert(vd.take(i as int + 1).last() == vd[i as int]);
            assert(vd.take(i as int).contains(vd[i as int]) <==> dup) by {
                if dup {
                    let l = choose|l: int| 0 <= l < i && vd[l] == vd[i as int];
                    assert(vd.take(i as int)[l] == vd[i as int]);
                }
                if vd.take(i as int).contains(vd[i as int]) {
                    let l = choose|l: int|
                        0 <= l < i && vd.take(i as int)[l] == vd[i as int];
                    assert(vd[l] == vd[i as int]);
                }
            }
        }
        if dup {
            r.push(Diagnostic::DuplicateVariant(variants[i].clone()));
        }
        i += 1;
    }
    proof {
        assert(vd.take(variants.deep_view().len() as int) =~= vd);
    }
    r
}

/// Parses a catalog declaration's variant list from position `i` on,
/// mirroring [`spec_parse_variants`] over the remaining tokens.
fn parse_variants(tokens: &Vec<MacroToken>, i: usize) -> (r: Result<Vec<String>, Diagnostic>)
    requires
        i <= tokens@.len(),
    ensures
        r matches Ok(vs) ==> spec_parse_variants(tokens.deep_view().skip(i as int)) matches Ok(sv)
            && vs.deep_view() == sv,
        r matches Err(d) ==> spec_parse_variants(tokens.deep_view().skip(i as int)) matches Err(e)
            && d@ == e,
    decreases tokens@.len() - i,
{
    let ghost t = tokens.deep_view().skip(i as int);
    if i == tokens.len() {
        let r: Vec<String> = Vec::new();
        proof {
            assert(t.len() == 0);
            assert(r.deep_view() =~= Seq::<Seq<char>>::empty());
        }
        Ok(r)
    } else {
        match &tokens[i] {
            MacroToken::Ident(s) => {
                proof {
                    assert(t[0] == tokens.deep_view()[i as int]);
                }
                if i + 1 == tokens.len() {
                    let mut vs: Vec<String> = Vec::new();
                    vs.push(s.clone());
                    proof {
                        assert(vs.deep_view() =~= seq![t[0]->Ident_0]);
                    }
                    Ok(vs)
                } else {
                    let comma_next = match &tokens[i + 1] {
                        MacroToken::Comma => true,
                        _ => false,
                    };
                    proof {
                        assert(t[1] == tokens.deep_view()[i as int + 1]);
                    }
                    if comma_next {
                        match parse_variants(tokens, i + 2) {
                            Ok(mut rest) => {
                                let ghost rest_view = rest.deep_view();
                                rest.insert(0, s.clone());
                                proof {
                                    assert(tokens.deep_view().skip(i as int + 2) =~= t.skip(2));
                                    assert(rest.deep_view() =~= seq![t[0]->Ident_0]
                                        + rest_view);
                                }
                                Ok(rest)
                            },
                            Err(d) => {
                                proof {
                                    assert(tokens.deep_view().skip(i as int + 2) =~= t.skip(2));
                                }
                                Err(d)
                            },
                        }
                    } else {
                        Err(Diagnostic::UnexpectedToken)
                    }
                }
            },
            _ => {
                proof {
                    assert(t[0] == tokens.deep_view()[i as int]);
                }
                Err(Diagnostic::ExpectedIdentifier)
            },
        }
    }
}

/// Parses a whole catalog declaration into its name and variant names,
/// mirroring [`spec_parse_declaration`].
pub fn parse_declaration(tokens: &Vec<MacroToken>) -> (r: Result<
    (String, Vec<String>),
    Diagnostic,
>)
    ensures
        r matches Ok(p) ==> spec_parse_declaration(tokens.deep_view()) matches Ok(sp) && p.0@
            == sp.0 && p.1.deep_view() == sp.1,
        r matches Err(d) ==> spec_parse_declaration(tokens.deep_view()) matches Err(e) && d@ == e,
{
    if tokens.len() == 0 {
        return Err(Diagnostic::ExpectedIdentifier);
    }
    match &tokens[0] {
        MacroToken::Ident(name) => {
            if tokens.len() == 1 {
                let vs: Vec<String> = Vec::new();
                proof {
                    assert(vs.deep_view() =~= Seq::<Seq<char>>::empty());
                }
                Ok((name.clone(), vs))
            } else {
                let comma_next = match &tokens[1] {
                    MacroToken::Comma => true,
                    _ => false,
                };
                if comma_next {
                    match parse_variants(tokens, 2) {
                        Ok(vs) => Ok((name.clone(), vs)),
                        Err(d) => Err(d),
                    }
                } else {
                    Err(Diagnostic::UnexpectedToken)
                }
            }
        },
        _ => Err(Diagnostic::ExpectedIdentifier),
    }
}

/// The catalog generator. It parses the declaration, reports every repeated
/// variant name with one diagnostic per repeat, reports a variant list that
/// is empty after the repeat check, and otherwise declares the catalog.
/// Generation succeeds exactly when the input parses, lists at least one
/// variant, and repeats none; the declared catalog is then well formed and
/// carries the declared name and names in order.
pub fn define_error(tokens: &Vec<MacroToken>) -> (r: Result<ErrorCatalog, Vec<Diagnostic>>)
    ensures
        r is Ok <==> spec_define_error(tokens.deep_view()) is Ok,
        r matches Ok(c) ==> spec_define_error(tokens.deep_view()) matches Ok(cv) && c@ == cv
            && c.wf(),
        r matches Err(ds) ==> spec_define_error(tokens.deep_view()) matches Err(dv)
            && ds.deep_view() == dv,
{
    match parse_declaration(tokens) {
        Err(d) => {
            let ghost dv = d@;
            let mut ds: Vec<Diagnostic> = Vec::new();
            ds.push(d);
            proof {
                assert(ds.deep_view() =~= seq![dv]);
            }
            Err(ds)
        },
        Ok((name, variants)) => {
            let ghost vs = variants.deep_view();
            let dups = collect_duplicates(&variants);
            if dups.len() > 0 {
                proof {
                    assert(dups.deep_view() =~= spec_duplicates(vs).map_values(
                        |n: Seq<char>| DiagnosticView::DuplicateVariant(n),
                    ));
                }
                Err(dups)
            } else if variants.len() == 0 {
                let mut ds: Vec<Diagnostic> = Vec::new();
                ds.push(Diagnostic::MissingVariants);
                proof {
                    assert(ds.deep_view() =~= seq![DiagnosticView::MissingVariants]);
                }
                Err(ds)
            } else {
                proof {
                    lemma_distinct_iff_no_duplicates(vs);
                }
                Ok(ErrorCatalog { name, variants })
            }
        },
    }
}

} // verus!
