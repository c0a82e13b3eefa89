use vstd::prelude::*;

use crate::error::{fail, Expected, SyntaxError};
use crate::parser::res_view;
use crate::token::{
    arrow_at, close_at, copy_span, has_arrow, has_close, has_open, has_punct, has_word,
    lemma_span_end_bounds, open_at, punct_at, scan_span, span_end, word_at, Delim, Syntax,
    Tok,
};

verus! {

/// A tree-walking model: the context type with its generic parameters, the
/// output type shared by all clauses, and the clauses in order.
pub struct Model {
    pub context: Vec<Tok>,
    /// The generic parameter list written after `impl`, angle brackets
    /// included; empty when there is none.
    pub generics: Vec<Tok>,
    pub output: Vec<Tok>,
    pub clauses: Vec<Clause>,
}

/// `where <pattern> => <body>`: the body is kept as the tokens written.
pub struct Clause {
    pub pattern: Vec<Tok>,
    pub body: Vec<Tok>,
}

/// A clause as its pattern type and its body.
pub type ClauseView = (Seq<Tok>, Seq<Tok>);

pub struct ModelView {
    pub context: Seq<Tok>,
    pub generics: Seq<Tok>,
    pub output: Seq<Tok>,
    pub clauses: Seq<ClauseView>,
}

impl View for Clause {
    type V = ClauseView;

    open spec fn view(&self) -> ClauseView {
        (self.pattern@, self.body@)
    }
}

impl View for Model {
    type V = ModelView;

    open spec fn view(&self) -> ModelView {
        ModelView {
            context: self.context@,
            generics: self.generics@,
            output: self.output@,
            clauses: self.clauses@.map_values(|c: Clause| c@),
        }
    }
}

/// `where <type> => <expr>`, the expression followed by a `,` or the closing brace.
pub open spec fn spec_clause(t: Seq<Tok>, k: int) -> Result<(ClauseView, int), SyntaxError> {
    if !word_at(t, k, "where"@) {
        fail(k, Expected::WhereKeyword)
    } else {
        match span_end(t, k + 1, Syntax::Type) {
            None => fail(k + 1, Expected::Type),
            Some(p) => if !arrow_at(t, p, '=') {
                fail(p, Expected::FatArrow)
            } else {
                match span_end(t, p + 2, Syntax::Expr) {
                    None => fail(p + 2, Expected::Expr),
                    Some(b) => Ok(((t.subrange(k + 1, p), t.subrange(p + 2, b)), b)),
                }
            },
        }
    }
}

/// The clauses from just after the `{` through the closing brace, separated by
/// commas, with an optional trailing comma.
pub open spec fn spec_clauses(t: Seq<Tok>, k: int) -> Result<(Seq<ClauseView>, int), SyntaxError>
    decreases t.len() - k,
    via spec_clauses_decreases
{
    if k < 0 || k > t.len() {
        fail(k, Expected::WhereKeyword)
    } else if close_at(t, k) {
        Ok((Seq::empty(), k + 1))
    } else {
        match spec_clause(t, k) {
            Err(e) => Err(e),
            Ok((c, b)) => if close_at(t, b) {
                Ok((seq![c], b + 1))
            } else if !punct_at(t, b, ',') {
                fail(b, Expected::Comma)
            } else {
                match spec_clauses(t, b + 1) {
                    Err(e) => Err(e),
                    Ok((rest, j)) => Ok((rest.insert(0, c), j)),
                }
            },
        }
    }
}

#[via_fn]
proof fn spec_clauses_decreases(t: Seq<Tok>, k: int) {
    if 0 <= k && k + 1 <= t.len() && word_at(t, k, "where"@) {
        lemma_span_end_bounds(t, k + 1, Syntax::Type);
        if let Some(p) = span_end(t, k + 1, Syntax::Type) {
            if arrow_at(t, p, '=') {
                lemma_span_end_bounds(t, p + 2, Syntax::Expr);
            }
        }
    }
}

/// The generic parameter list after `impl`, when it opens with `<`: the
/// longest run of tokens that parses as one whole list, and the position after.
pub open spec fn spec_generics(t: Seq<Tok>) -> Result<(Seq<Tok>, int), SyntaxError> {
    if !punct_at(t, 1, '<') {
        Ok((Seq::empty(), 1))
    } else {
        match span_end(t, 1, Syntax::Generics) {
            None => fail(1, Expected::Generics),
            Some(g) => Ok((t.subrange(1, g), g)),
        }
    }
}

/// `impl <generics>? <type> -> <type> { clauses }`, covering the whole input.
pub open spec fn spec_model(t: Seq<Tok>) -> Result<ModelView, SyntaxError> {
    if !word_at(t, 0, "impl"@) {
        fail(0, Expected::ImplKeyword)
    } else {
        match spec_generics(t) {
            Err(e) => Err(e),
            Ok((generics, k)) => match span_end(t, k, Syntax::Type) {
                None => fail(k, Expected::Type),
                Some(c) => if !arrow_at(t, c, '-') {
                    fail(c, Expected::Arrow)
                } else {
                    match span_end(t, c + 2, Syntax::Type) {
                        None => fail(c + 2, Expected::Type),
                        Some(o) => if !open_at(t, o, Delim::Brace) {
                            fail(o, Expected::OpenBrace)
                        } else {
                            match spec_clauses(t, o + 1) {
                                Err(e) => Err(e),
                                Ok((clauses, j)) => if j != t.len() {
                                    fail(j, Expected::EndOfInput)
                                } else {
                                    Ok(
                                        ModelView {
                                            context: t.subrange(k, c),
                                            generics,
                                            output: t.subrange(c + 2, o),
                                            clauses,
                                        },
                                    )
                                },
                            }
                        },
                    }
                },
            },
        }
    }
}

impl Clause {
    /// Parses one clause at `k`.
    pub fn parse(toks: &Vec<Tok>, k: usize) -> (r: Result<(Clause, usize), SyntaxError>)
        requires
            k <= toks.len(),
        ensures
            res_view(r) == spec_clause(toks@, k as int),
            r matches Ok((_, j)) ==> k < j <= toks@.len(),
    {
        if !has_word(toks, k, "where") {
            return Err(SyntaxError { pos: k, expected: Expected::WhereKeyword });
        }
        let p = match scan_span(toks, k + 1, Syntax::Type) {
            Some(p) => p,
            None => {
                return Err(SyntaxError { pos: k + 1, expected: Expected::Type });
            },
        };
        if !has_arrow(toks, p, '=') {
            return Err(SyntaxError { pos: p, expected: Expected::FatArrow });
        }
        let b = match scan_span(toks, p + 2, Syntax::Expr) {
            Some(b) => b,
            None => {
                return Err(SyntaxError { pos: p + 2, expected: Expected::Expr });
            },
        };
        Ok((Clause { pattern: copy_span(toks, k + 1, p), body: copy_span(toks, p + 2, b) }, b))
    }
}

fn parse_clauses(toks: &Vec<Tok>, k: usize) -> (r: Result<(Vec<Clause>, usize), SyntaxError>)
    requires
        k <= toks.len(),
    ensures
        match (r, spec_clauses(toks@, k as int)) {
            (Ok((v, j)), Ok((sv, sj))) => v@.map_values(|c: Clause| c@) == sv && j == sj,
            (Err(e), Err(se)) => e == se,
            _ => false,
        },
        r matches Ok((_, j)) ==> k < j <= toks@.len(),
    decreases toks@.len() - k,
{
    if has_close(toks, k) {
        let v: Vec<Clause> = Vec::new();
        proof {
            assert(v@.map_values(|c: Clause| c@) =~= Seq::<ClauseView>::empty());
        }
        return Ok((v, k + 1));
    }
    let (c, b) = match Clause::parse(toks, k) {
        Ok(p) => p,
        Err(e) => {
            return Err(e);
        },
    };
    if has_close(toks, b) {
        let mut v: Vec<Clause> = Vec::new();
        v.push(c);
        proof {
            assert(v@.map_values(|c: Clause| c@) =~= seq![c@]);
        }
        return Ok((v, b + 1));
    }
    if !has_punct(toks, b, ',') {
        return Err(SyntaxError { pos: b, expected: Expected::Comma });
    }
    match parse_clauses(toks, b + 1) {
        Err(e) => Err(e),
        Ok((rest, j)) => {
            let ghost old_view = rest@.map_values(|c: Clause| c@);
            let mut rest = rest;
            rest.insert(0, c);
            proof {
                assert(rest@.map_values(|c: Clause| c@) =~= old_view.insert(0, c@));
            }
            Ok((rest, j))
        },
    }
}

impl Model {
    /// Parses a whole model.
    pub fn parse(toks: &Vec<Tok>) -> (r: Result<Model, SyntaxError>)
        ensures
            match (r, spec_model(toks@)) {
                (Ok(m), Ok(v)) => m@ == v,
                (Err(e), Err(se)) => e == se,
                _ => false,
            },
    {
        let n: usize = toks.len();
        if !has_word(toks, 0, "impl") {
            return Err(SyntaxError { pos: 0, expected: Expected::ImplKeyword });
        }
        let (generics, k) = if has_punct(toks, 1, '<') {
            match scan_span(toks, 1, Syntax::Generics) {
                Some(g) => (copy_span(toks, 1, g), g),
                None => {
                    return Err(SyntaxError { pos: 1, expected: Expected::Generics });
                },
            }
        } else {
            (Vec::new(), 1)
        };
        let c = match scan_span(toks, k, Syntax::Type) {
            Some(c) => c,
            None => {
                return Err(SyntaxError { pos: k, expected: Expected::Type });
            },
        };
        if !has_arrow(toks, c, '-') {
            return Err(SyntaxError { pos: c, expected: Expected::Arrow });
        }
        let o = match scan_span(toks, c + 2, Syntax::Type) {
            Some(o) => o,
            None => {
                return Err(SyntaxError { pos: c + 2, expected: Expected::Type });
            },
        };
        if !has_open(toks, o, Delim::Brace) {
            return Err(SyntaxError { pos: o, expected: Expected::OpenBrace });
        }
        let (clauses, j) = match parse_clauses(toks, o + 1) {
            Ok(p) => p,
            Err(e) => {
                return Err(e);
            },
        };
        if j != n {
            return Err(SyntaxError { pos: j, expected: Expected::EndOfInput });
        }
        Ok(
            Model {
                context: copy_span(toks, k, c),
                generics,
                output: copy_span(toks, c + 2, o),
                clauses,
            },
        )
    }
}

/// Two parses of the same tokens give structurally equal models, or the same error.
pub proof fn lemma_model_reparse(
    toks: Seq<Tok>,
    r1: Result<ModelView, SyntaxError>,
    r2: Result<ModelView, SyntaxError>,
)
    requires
        r1 == spec_model(toks),
        r2 == spec_model(toks),
    ensures
        r1 == r2,
{
}

} // verus!
