use vstd::prelude::*;

use crate::parser::model::{spec_model, ClauseView, Model, ModelView};
use crate::error::SyntaxError;
use crate::token::{
    copy_span, copy_tok, has_punct, lemma_span_end_bounds, punct_at, scan_span, span_end, span_ok,
    span_fits, span_text, text_of, Syntax, Tok,
};

verus! {

/// One generated definition of a model.
pub enum Dispatch {
    /// The visitor and visitable traits, with the output type.
    Traits { output: Vec<Tok> },
    /// The visitable implementation of one clause for its pattern type.
    ClauseImpl {
        impl_generics: Vec<Tok>,
        context: Vec<Tok>,
        ty_generics: Vec<ParamName>,
        pattern: Vec<Tok>,
        output: Vec<Tok>,
        body: Vec<Tok>,
    },
    /// The visitor implementation for the context type, whose generic visit
    /// goes to the visitable implementation of the node's kind.
    VisitorImpl {
        impl_generics: Vec<Tok>,
        context: Vec<Tok>,
        ty_generics: Vec<ParamName>,
        output: Vec<Tok>,
    },
}

pub enum DispatchView {
    Traits { output: Seq<Tok> },
    ClauseImpl {
        impl_generics: Seq<Tok>,
        context: Seq<Tok>,
        ty_generics: Seq<ParamView>,
        pattern: Seq<Tok>,
        output: Seq<Tok>,
        body: Seq<Tok>,
    },
    VisitorImpl {
        impl_generics: Seq<Tok>,
        context: Seq<Tok>,
        ty_generics: Seq<ParamView>,
        output: Seq<Tok>,
    },
}

impl View for Dispatch {
    type V = DispatchView;

    open spec fn view(&self) -> DispatchView {
        match self {
            Dispatch::Traits { output } => DispatchView::Traits { output: output@ },
            Dispatch::ClauseImpl { impl_generics, context, ty_generics, pattern, output, body } =>
                DispatchView::ClauseImpl {
                impl_generics: impl_generics@,
                context: context@,
                ty_generics: ty_generics@.map_values(|p: ParamName| p@),
                pattern: pattern@,
                output: output@,
                body: body@,
            },
            Dispatch::VisitorImpl { impl_generics, context, ty_generics, output } =>
                DispatchView::VisitorImpl {
                impl_generics: impl_generics@,
                context: context@,
                ty_generics: ty_generics@.map_values(|p: ParamName| p@),
                output: output@,
            },
        }
    }
}

/// The name of one generic parameter, and whether it is a lifetime (written
/// after a `'`) rather than a type or const parameter.
pub struct ParamName {
    pub lifetime: bool,
    pub name: String,
}

pub type ParamView = (bool, Seq<char>);

impl View for ParamName {
    type V = ParamView;

    open spec fn view(&self) -> ParamView {
        (self.lifetime, self.name@)
    }
}

/// The parameters named by a generic parameter list's text, in order.
pub uninterp spec fn generic_names_of(text: Seq<char>) -> Seq<ParamView>;

pub open spec fn generic_args(g: Seq<Tok>) -> Seq<ParamView> {
    generic_names_of(text_of(g))
}

/// Relies on `syn::parse_str::<syn::Generics>`: the name of each parameter of
/// the list, in order (none when the text is not a list).
#[verifier::external_body]
fn generic_names(text: &String) -> (r: Vec<ParamName>)
    ensures
        r@.map_values(|p: ParamName| p@) == generic_names_of(text@),
{
    match syn::parse_str::<syn::Generics>(text) {
        Ok(g) => g.params.iter().map(|p| match p {
            syn::GenericParam::Lifetime(l) => ParamName { lifetime: true, name: l.lifetime.ident.to_string() },
            syn::GenericParam::Type(t) => ParamName { lifetime: false, name: t.ident.to_string() },
            syn::GenericParam::Const(c) => ParamName { lifetime: false, name: c.ident.to_string() },
        }).collect(),
        Err(_) => Vec::new(),
    }
}

/// Where the default of the parameter that starts at `i` and ends at `e`
/// begins: the first `=` from `k` on before which the tokens from `i` parse as
/// one parameter; `e` when there is none.
pub open spec fn default_start(g: Seq<Tok>, i: int, k: int, e: int) -> int
    decreases e - k,
{
    if k >= e {
        e
    } else if punct_at(g, k, '=') && span_ok(g, i, k, Syntax::Param) {
        k
    } else {
        default_start(g, i, k + 1, e)
    }
}

/// The parameters from `i` on, each without its default, with the commas
/// that separate them.
pub open spec fn impl_params_from(g: Seq<Tok>, i: int) -> Seq<Tok>
    decreases g.len() - i,
    via impl_params_from_decreases
{
    if i < 0 || i >= g.len() {
        Seq::empty()
    } else {
        match span_end(g, i, Syntax::Param) {
            None => Seq::empty(),
            Some(e) => {
                let q = default_start(g, i, i + 1, e);
                if punct_at(g, e, ',') {
                    g.subrange(i, q) + seq![g[e]] + impl_params_from(g, e + 1)
                } else {
                    g.subrange(i, q)
                }
            },
        }
    }
}

#[via_fn]
proof fn impl_params_from_decreases(g: Seq<Tok>, i: int) {
    if 0 <= i < g.len() {
        lemma_span_end_bounds(g, i, Syntax::Param);
    }
}

/// A generic parameter list as it stands after `impl`: the list with every
/// parameter's default left out.
pub open spec fn impl_generics(g: Seq<Tok>) -> Seq<Tok> {
    if g.len() < 2 {
        g
    } else {
        seq![g[0]] + impl_params_from(g, 1) + seq![g.last()]
    }
}

proof fn lemma_default_start_bounds(g: Seq<Tok>, i: int, k: int, e: int)
    requires
        k <= e,
    ensures
        k <= default_start(g, i, k, e) <= e,
    decreases e - k,
{
    if k < e && !(punct_at(g, k, '=') && span_ok(g, i, k, Syntax::Param)) {
        lemma_default_start_bounds(g, i, k + 1, e);
    }
}

fn find_default(g: &Vec<Tok>, i: usize, e: usize) -> (r: usize)
    requires
        i < e <= g@.len(),
    ensures
        r == default_start(g@, i as int, i + 1, e as int),
        i < r <= e,
{
    proof {
        lemma_default_start_bounds(g@, i as int, i + 1, e as int);
    }
    let mut k: usize = i + 1;
    while k < e
        invariant
            i < k <= e <= g@.len(),
            default_start(g@, i as int, i + 1, e as int) == default_start(
                g@,
                i as int,
                k as int,
                e as int,
            ),
        decreases e - k,
    {
        if has_punct(g, k, '=') && span_fits(g, i, k, Syntax::Param) {
            return k;
        }
        k = k + 1;
    }
    e
}

fn impl_params_at(g: &Vec<Tok>, i: usize) -> (r: Vec<Tok>)
    requires
        i <= g@.len(),
    ensures
        r@ == impl_params_from(g@, i as int),
    decreases g@.len() - i,
{
    if i >= g.len() {
        return Vec::new();
    }
    let e = match scan_span(g, i, Syntax::Param) {
        Some(e) => e,
        None => {
            return Vec::new();
        },
    };
    let q = find_default(g, i, e);
    let mut r = copy_span(g, i, q);
    if has_punct(g, e, ',') {
        r.push(copy_tok(&g[e]));
        let mut rest = impl_params_at(g, e + 1);
        r.append(&mut rest);
    }
    r
}

/// The generic parameter list to write after `impl`: defaults left out.
pub fn impl_generics_of(g: &Vec<Tok>) -> (r: Vec<Tok>)
    ensures
        r@ == impl_generics(g@),
{
    if g.len() < 2 {
        return copy_tokens(g);
    }
    let mut r: Vec<Tok> = Vec::new();
    r.push(copy_tok(&g[0]));
    let mut params = impl_params_at(g, 1);
    r.append(&mut params);
    r.push(copy_tok(&g[g.len() - 1]));
    r
}

/// The implementation generated for one clause.
pub open spec fn clause_impl(m: ModelView, c: ClauseView) -> DispatchView {
    DispatchView::ClauseImpl {
        impl_generics: impl_generics(m.generics),
        context: m.context,
        ty_generics: generic_args(m.generics),
        pattern: c.0,
        output: m.output,
        body: c.1,
    }
}

/// What a model generates: the traits, one implementation per clause in order,
/// then the visitor implementation for the context type.
pub open spec fn model_defs(m: ModelView) -> Seq<DispatchView> {
    seq![DispatchView::Traits { output: m.output }] + m.clauses.map_values(
        |c: ClauseView| clause_impl(m, c),
    ) + seq![
        DispatchView::VisitorImpl {
            impl_generics: impl_generics(m.generics),
            context: m.context,
            ty_generics: generic_args(m.generics),
            output: m.output,
        },
    ]
}

fn copy_tokens(v: &Vec<Tok>) -> (r: Vec<Tok>)
    ensures
        r@ == v@,
{
    let r = copy_span(v, 0, v.len());
    assert(r@ =~= v@);
    r
}

/// The parameters named by a generic parameter list, in order: the type
/// arguments that apply the list to the type it is declared on.
pub fn generic_args_of(g: &Vec<Tok>) -> (r: Vec<ParamName>)
    ensures
        r@.map_values(|p: ParamName| p@) == generic_args(g@),
{
    let text = span_text(g, 0, g.len());
    assert(g@.subrange(0, g@.len() as int) =~= g@);
    generic_names(&text)
}

fn copy_names(v: &Vec<ParamName>) -> (r: Vec<ParamName>)
    ensures
        r@.map_values(|p: ParamName| p@) == v@.map_values(|p: ParamName| p@),
{
    let mut r: Vec<ParamName> = Vec::new();
    let mut k: usize = 0;
    while k < v.len()
        invariant
            k <= v@.len(),
            r@.map_values(|p: ParamName| p@) == v@.subrange(0, k as int).map_values(
                |p: ParamName| p@,
            ),
        decreases v@.len() - k,
    {
        let ghost before = r@.map_values(|p: ParamName| p@);
        let p = ParamName { lifetime: v[k].lifetime, name: v[k].name.clone() };
        assert(p@ == v@[k as int]@);
        r.push(p);
        proof {
            assert(r@.map_values(|p: ParamName| p@) =~= before.push(v@[k as int]@));
            assert(v@.subrange(0, k + 1).map_values(|p: ParamName| p@) =~= v@.subrange(
                0,
                k as int,
            ).map_values(|p: ParamName| p@).push(v@[k as int]@));
        }
        k = k + 1;
    }
    assert(v@.subrange(0, k as int) =~= v@);
    r
}

/// Lowers a model to its definitions.
pub fn lower(model: &Model) -> (r: Vec<Dispatch>)
    ensures
        r@.map_values(|d: Dispatch| d@) == model_defs(model@),
{
    let ghost m = model@;
    let ty_generics = generic_args_of(&model.generics);
    let impl_params = impl_generics_of(&model.generics);
    let mut r: Vec<Dispatch> = Vec::new();
    r.push(Dispatch::Traits { output: copy_tokens(&model.output) });
    let ghost cs = m.clauses;
    let ghost f = |c: ClauseView| clause_impl(m, c);
    assert(r@.map_values(|d: Dispatch| d@) =~= seq![DispatchView::Traits { output: m.output }]
        + cs.take(0).map_values(f));
    let mut k: usize = 0;
    while k < model.clauses.len()
        invariant
            k <= model.clauses@.len(),
            m == model@,
            ty_generics@.map_values(|p: ParamName| p@) == generic_args(m.generics),
            impl_params@ == impl_generics(m.generics),
            cs == m.clauses,
            cs.len() == model.clauses@.len(),
            f == (|c: ClauseView| clause_impl(m, c)),
            r@.map_values(|d: Dispatch| d@) == seq![DispatchView::Traits { output: m.output }]
                + cs.take(k as int).map_values(f),
        decreases model.clauses@.len() - k,
    {
        let c = &model.clauses[k];
        let d = Dispatch::ClauseImpl {
            impl_generics: copy_tokens(&impl_params),
            context: copy_tokens(&model.context),
            ty_generics: copy_names(&ty_generics),
            pattern: copy_tokens(&c.pattern),
            output: copy_tokens(&model.output),
            body: copy_tokens(&c.body),
        };
        let ghost before = r@.map_values(|d: Dispatch| d@);
        proof {
            assert(cs[k as int] == c@);
            assert(d@ == f(cs[k as int]));
        }
        r.push(d);
        proof {
            assert(r@.map_values(|d: Dispatch| d@) =~= before.push(f(cs[k as int])));
            assert(cs.take(k + 1).map_values(f) =~= cs.take(k as int).map_values(f).push(
                f(cs[k as int]),
            ));
        }
        k = k + 1;
    }
    let ghost before = r@.map_values(|d: Dispatch| d@);
    r.push(
        Dispatch::VisitorImpl {
            impl_generics: impl_params,
            context: copy_tokens(&model.context),
            ty_generics,
            output: copy_tokens(&model.output),
        },
    );
    proof {
        assert(cs.take(k as int) =~= cs);
        assert(r@.map_values(|d: Dispatch| d@) =~= model_defs(m));
    }
    r
}

/// Each clause becomes the implementation for its own pattern type, carrying
/// that clause's body and no other; the clause implementations stand in clause
/// order between the traits and the visitor implementation.
pub proof fn lemma_clause_dispatch(m: ModelView, i: int)
    requires
        0 <= i < m.clauses.len(),
    ensures
        model_defs(m).len() == m.clauses.len() + 2,
        model_defs(m)[i + 1] == (DispatchView::ClauseImpl {
            impl_generics: impl_generics(m.generics),
            context: m.context,
            ty_generics: generic_args(m.generics),
            pattern: m.clauses[i].0,
            output: m.output,
            body: m.clauses[i].1,
        }),
        model_defs(m)[0] is Traits,
        model_defs(m)[m.clauses.len() + 1int] is VisitorImpl,
{
}

/// Parses a model and lowers it to its definitions; a syntax error stops
/// the whole run and nothing is generated.
pub fn generate(toks: &Vec<Tok>) -> (r: Result<Vec<Dispatch>, SyntaxError>)
    ensures
        match (r, spec_model(toks@)) {
            (Ok(defs), Ok(v)) => defs@.map_values(|d: Dispatch| d@) == model_defs(v),
            (Err(e), Err(se)) => e == se,
            _ => false,
        },
{
    match Model::parse(toks) {
        Ok(model) => Ok(lower(&model)),
        Err(e) => Err(e),
    }
}

} // verus!
