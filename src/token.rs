use vstd::prelude::*;
use vstd::string::StringExecFns;

verus! {

/// Bracket kind of a delimited token group.
#[derive(Clone, Copy, Debug, PartialEq, Eq, Structural)]
pub enum Delim {
    Paren,
    Brace,
    Bracket,
    Invisible,
}

/// One token of a flattened token stream.
///
/// A delimited group appears as `Open(d)`, its contents, then `Close(d)`.
/// `Punct` holds the character and whether it is joined to the next token
/// (as the `-` of `->` is).
#[derive(Debug, PartialEq, Eq)]
pub enum Tok {
    Ident(String),
    Punct(char, bool),
    Lit(String),
    Open(Delim),
    Close(Delim),
}

pub open spec fn is_punct(t: Tok, c: char) -> bool {
    t matches Tok::Punct(d, _) && d == c
}

pub open spec fn is_joint(t: Tok, c: char) -> bool {
    t matches Tok::Punct(d, j) && d == c && j
}

pub open spec fn is_word(t: Tok, w: Seq<char>) -> bool {
    t matches Tok::Ident(s) && s@ == w
}

pub open spec fn is_open(t: Tok, d: Delim) -> bool {
    t matches Tok::Open(e) && e == d
}

pub open spec fn punct_at(toks: Seq<Tok>, i: int, c: char) -> bool {
    0 <= i < toks.len() && is_punct(toks[i], c)
}

pub open spec fn word_at(toks: Seq<Tok>, i: int, w: Seq<char>) -> bool {
    0 <= i < toks.len() && is_word(toks[i], w)
}

pub open spec fn ident_at(toks: Seq<Tok>, i: int) -> bool {
    0 <= i < toks.len() && toks[i] is Ident
}

pub open spec fn open_at(toks: Seq<Tok>, i: int, d: Delim) -> bool {
    0 <= i < toks.len() && is_open(toks[i], d)
}

pub open spec fn close_at(toks: Seq<Tok>, i: int) -> bool {
    0 <= i < toks.len() && toks[i] is Close
}

/// A two-character operator `c>` (`->` or `=>`) starts at `i`.
pub open spec fn arrow_at(toks: Seq<Tok>, i: int, c: char) -> bool {
    0 <= i && i + 1 < toks.len() && is_joint(toks[i], c) && is_punct(toks[i + 1], '>')
}

/// What a span of tokens must parse as in the host language.
#[derive(Clone, Copy, Debug, PartialEq, Eq, Structural)]
pub enum Syntax {
    Type,
    Expr,
    /// A generic parameter list, angle brackets included.
    Generics,
    /// One generic parameter, its bounds and default included.
    Param,
}

/// Whether the text parses, whole, as one host-language type.
pub uninterp spec fn is_rust_type(text: Seq<char>) -> bool;

/// Whether the text parses, whole, as one host-language expression.
pub uninterp spec fn is_rust_expr(text: Seq<char>) -> bool;

/// Whether the text parses, whole, as a host-language visibility.
pub uninterp spec fn is_rust_visibility(text: Seq<char>) -> bool;

/// Whether the text parses, whole, as a host-language generic parameter list.
pub uninterp spec fn is_rust_generics(text: Seq<char>) -> bool;

/// Whether the text parses, whole, as one host-language generic parameter.
pub uninterp spec fn is_rust_generic_param(text: Seq<char>) -> bool;

/// The source text of one token, followed by a space unless it is a
/// punctuation joined to the next token.
pub open spec fn tok_text(t: Tok) -> Seq<char> {
    match t {
        Tok::Ident(s) => s@ + " "@,
        Tok::Lit(s) => s@ + " "@,
        Tok::Punct(c, j) => if j {
            seq![c]
        } else {
            seq![c, ' ']
        },
        Tok::Open(Delim::Paren) => "( "@,
        Tok::Open(Delim::Brace) => "{ "@,
        Tok::Open(Delim::Bracket) => "[ "@,
        Tok::Close(Delim::Paren) => ") "@,
        Tok::Close(Delim::Brace) => "} "@,
        Tok::Close(Delim::Bracket) => "] "@,
        Tok::Open(Delim::Invisible) => Seq::empty(),
        Tok::Close(Delim::Invisible) => Seq::empty(),
    }
}

/// The source text of a token sequence.
pub open spec fn text_of(s: Seq<Tok>) -> Seq<char>
    decreases s.len(),
{
    if s.len() == 0 {
        Seq::empty()
    } else {
        text_of(s.drop_last()) + tok_text(s.last())
    }
}

/// Whether `toks[start..k]` parses, whole, as one nonempty item of the given kind.
pub open spec fn span_ok(toks: Seq<Tok>, start: int, k: int, kind: Syntax) -> bool {
    start < k && match kind {
        Syntax::Type => is_rust_type(text_of(toks.subrange(start, k))),
        Syntax::Expr => is_rust_expr(text_of(toks.subrange(start, k))),
        Syntax::Generics => is_rust_generics(text_of(toks.subrange(start, k))),
        Syntax::Param => is_rust_generic_param(text_of(toks.subrange(start, k))),
    }
}

/// The last place `e`, from `k` up to the close of the group enclosing `start`
/// (or the end of the input), such that `toks[start..e]` parses whole; `best`
/// is the last such place before `k`, `nest` the groups open at `k`.
pub open spec fn longest_end(
    toks: Seq<Tok>,
    start: int,
    k: int,
    nest: nat,
    kind: Syntax,
    best: Option<int>,
) -> Option<int>
    decreases toks.len() - k,
{
    let best = if nest == 0 && span_ok(toks, start, k, kind) {
        Some(k)
    } else {
        best
    };
    if k < 0 || k >= toks.len() {
        best
    } else if nest == 0 && toks[k] is Close {
        best
    } else if toks[k] is Open {
        longest_end(toks, start, k + 1, nest + 1, kind, best)
    } else if toks[k] is Close {
        longest_end(toks, start, k + 1, (nest - 1) as nat, kind, best)
    } else {
        longest_end(toks, start, k + 1, nest, kind, best)
    }
}

/// Where the item of the given kind that starts at `start` ends: after the
/// longest run of tokens, within the enclosing group, that parses whole as one
/// such item. `None` when no run does.
pub open spec fn span_end(toks: Seq<Tok>, start: int, kind: Syntax) -> Option<int> {
    longest_end(toks, start, start, 0, kind, None)
}

/// Where the group that is open at `i` closes, `nest` further groups being open:
/// the first close outside them, or the end.
pub open spec fn group_end(toks: Seq<Tok>, i: int, nest: nat) -> int
    decreases toks.len() - i,
{
    if i < 0 || i >= toks.len() {
        toks.len() as int
    } else if nest == 0 && toks[i] is Close {
        i
    } else if toks[i] is Open {
        group_end(toks, i + 1, nest + 1)
    } else if toks[i] is Close {
        group_end(toks, i + 1, (nest - 1) as nat)
    } else {
        group_end(toks, i + 1, nest)
    }
}

pub proof fn lemma_longest_end_bounds(
    toks: Seq<Tok>,
    start: int,
    k: int,
    nest: nat,
    kind: Syntax,
    best: Option<int>,
)
    requires
        0 <= start <= k <= toks.len(),
        best matches Some(b) ==> start < b <= toks.len() && span_ok(toks, start, b, kind),
    ensures
        longest_end(toks, start, k, nest, kind, best) matches Some(e) ==> start < e <= toks.len()
            && span_ok(toks, start, e, kind),
    decreases toks.len() - k,
{
    let b2 = if nest == 0 && span_ok(toks, start, k, kind) {
        Some(k)
    } else {
        best
    };
    if k < toks.len() {
        if nest == 0 && toks[k] is Close {
        } else if toks[k] is Open {
            lemma_longest_end_bounds(toks, start, k + 1, nest + 1, kind, b2);
        } else if toks[k] is Close {
            lemma_longest_end_bounds(toks, start, k + 1, (nest - 1) as nat, kind, b2);
        } else {
            lemma_longest_end_bounds(toks, start, k + 1, nest, kind, b2);
        }
    }
}

pub proof fn lemma_span_end_bounds(toks: Seq<Tok>, start: int, kind: Syntax)
    requires
        0 <= start <= toks.len(),
    ensures
        span_end(toks, start, kind) matches Some(e) ==> start < e <= toks.len() && span_ok(
            toks,
            start,
            e,
            kind,
        ),
{
    lemma_longest_end_bounds(toks, start, start, 0, kind, None);
}

pub proof fn lemma_group_end_bounds(toks: Seq<Tok>, i: int, nest: nat)
    requires
        0 <= i <= toks.len(),
    ensures
        i <= group_end(toks, i, nest) <= toks.len(),
    decreases toks.len() - i,
{
    if i < toks.len() {
        if nest == 0 && toks[i] is Close {
        } else if toks[i] is Open {
            lemma_group_end_bounds(toks, i + 1, nest + 1);
        } else if toks[i] is Close {
            lemma_group_end_bounds(toks, i + 1, (nest - 1) as nat);
        } else {
            lemma_group_end_bounds(toks, i + 1, nest);
        }
    }
}

/// Copy of a token.
pub fn copy_tok(t: &Tok) -> (r: Tok)
    ensures
        r == *t,
{
    match t {
        Tok::Ident(s) => Tok::Ident(s.clone()),
        Tok::Punct(c, j) => Tok::Punct(*c, *j),
        Tok::Lit(s) => Tok::Lit(s.clone()),
        Tok::Open(d) => Tok::Open(*d),
        Tok::Close(d) => Tok::Close(*d),
    }
}

/// Copy of the tokens `toks[lo..hi]`.
pub fn copy_span(toks: &Vec<Tok>, lo: usize, hi: usize) -> (r: Vec<Tok>)
    requires
        lo <= hi <= toks@.len(),
    ensures
        r@ == toks@.subrange(lo as int, hi as int),
{
    let mut v: Vec<Tok> = Vec::new();
    let mut k: usize = lo;
    while k < hi
        invariant
            lo <= k <= hi <= toks@.len(),
            v@ == toks@.subrange(lo as int, k as int),
        decreases hi - k,
    {
        v.push(copy_tok(&toks[k]));
        k = k + 1;
        assert(v@ =~= toks@.subrange(lo as int, k as int));
    }
    v
}

/// Whether the token at `i` is the punctuation `c`.
pub fn has_punct(toks: &Vec<Tok>, i: usize, c: char) -> (r: bool)
    ensures
        r == punct_at(toks@, i as int, c),
{
    if i < toks.len() {
        match &toks[i] {
            Tok::Punct(d, _) => *d == c,
            _ => false,
        }
    } else {
        false
    }
}

/// Whether the token at `i` is the word `w`.
pub fn has_word(toks: &Vec<Tok>, i: usize, w: &str) -> (r: bool)
    ensures
        r == word_at(toks@, i as int, w@),
{
    if i < toks.len() {
        match &toks[i] {
            Tok::Ident(s) => *s == String::from_str(w),
            _ => false,
        }
    } else {
        false
    }
}

/// The identifier at `i`, if there is one.
pub fn ident_of(toks: &Vec<Tok>, i: usize) -> (r: Option<String>)
    ensures
        r is Some == ident_at(toks@, i as int),
        r matches Some(s) ==> toks@[i as int] == Tok::Ident(s),
{
    if i < toks.len() {
        match &toks[i] {
            Tok::Ident(s) => Some(s.clone()),
            _ => None,
        }
    } else {
        None
    }
}

/// Whether the token at `i` opens a group delimited by `d`.
pub fn has_open(toks: &Vec<Tok>, i: usize, d: Delim) -> (r: bool)
    ensures
        r == open_at(toks@, i as int, d),
{
    if i < toks.len() {
        match &toks[i] {
            Tok::Open(e) => *e == d,
            _ => false,
        }
    } else {
        false
    }
}

/// Whether the token at `i` closes a group.
pub fn has_close(toks: &Vec<Tok>, i: usize) -> (r: bool)
    ensures
        r == close_at(toks@, i as int),
{
    i < toks.len() && matches!(toks[i], Tok::Close(_))
}

/// Whether a two-character operator `c>` starts at `i`.
pub fn has_arrow(toks: &Vec<Tok>, i: usize, c: char) -> (r: bool)
    ensures
        r == arrow_at(toks@, i as int, c),
{
    if i < toks.len() && toks.len() - i > 1 {
        let first = match &toks[i] {
            Tok::Punct(d, j) => *d == c && *j,
            _ => false,
        };
        first && has_punct(toks, i + 1, '>')
    } else {
        false
    }
}

/// Relies on `String::push`: the character is appended.
#[verifier::external_body]
fn push_char(s: &mut String, c: char)
    ensures
        final(s)@ == old(s)@.push(c),
{
    s.push(c)
}

/// Relies on `syn::parse_str::<syn::Type>`: whether the text is one type.
#[verifier::external_body]
fn parses_as_type(text: &String) -> (r: bool)
    ensures
        r == is_rust_type(text@),
{
    syn::parse_str::<syn::Type>(text).is_ok()
}

/// Relies on `syn::parse_str::<syn::Expr>`: whether the text is one expression.
#[verifier::external_body]
fn parses_as_expr(text: &String) -> (r: bool)
    ensures
        r == is_rust_expr(text@),
{
    syn::parse_str::<syn::Expr>(text).is_ok()
}

/// Relies on `syn::parse_str::<syn::Visibility>`: whether the text is one visibility.
#[verifier::external_body]
fn parses_as_visibility(text: &String) -> (r: bool)
    ensures
        r == is_rust_visibility(text@),
{
    syn::parse_str::<syn::Visibility>(text).is_ok()
}

/// Relies on `syn::parse_str::<syn::Generics>`: whether the text is one
/// generic parameter list.
#[verifier::external_body]
fn parses_as_generics(text: &String) -> (r: bool)
    ensures
        r == is_rust_generics(text@),
{
    syn::parse_str::<syn::Generics>(text).is_ok()
}

/// Relies on `syn::parse_str::<syn::GenericParam>`: whether the text is one
/// generic parameter.
#[verifier::external_body]
fn parses_as_generic_param(text: &String) -> (r: bool)
    ensures
        r == is_rust_generic_param(text@),
{
    syn::parse_str::<syn::GenericParam>(text).is_ok()
}

/// Appends the source text of one token.
fn push_tok_text(s: &mut String, t: &Tok)
    ensures
        final(s)@ == old(s)@ + tok_text(*t),
{
    match t {
        Tok::Ident(w) | Tok::Lit(w) => {
            s.append(w.as_str());
            s.append(" ");
        },
        Tok::Punct(c, j) => {
            push_char(s, *c);
            if !*j {
                s.append(" ");
            }
        },
        Tok::Open(Delim::Paren) => s.append("( "),
        Tok::Open(Delim::Brace) => s.append("{ "),
        Tok::Open(Delim::Bracket) => s.append("[ "),
        Tok::Close(Delim::Paren) => s.append(") "),
        Tok::Close(Delim::Brace) => s.append("} "),
        Tok::Close(Delim::Bracket) => s.append("] "),
        Tok::Open(Delim::Invisible) | Tok::Close(Delim::Invisible) => {},
    }
    proof {
        reveal_strlit(" ");
    }
    assert(s@ =~= old(s)@ + tok_text(*t));
}

/// The source text of `toks[lo..hi]`.
pub fn span_text(toks: &Vec<Tok>, lo: usize, hi: usize) -> (r: String)
    requires
        lo <= hi <= toks@.len(),
    ensures
        r@ == text_of(toks@.subrange(lo as int, hi as int)),
{
    let mut r = String::new();
    let mut k: usize = lo;
    assert(toks@.subrange(lo as int, lo as int) =~= Seq::<Tok>::empty());
    while k < hi
        invariant
            lo <= k <= hi <= toks@.len(),
            r@ == text_of(toks@.subrange(lo as int, k as int)),
        decreases hi - k,
    {
        push_tok_text(&mut r, &toks[k]);
        proof {
            let s = toks@.subrange(lo as int, k + 1);
            assert(s.drop_last() =~= toks@.subrange(lo as int, k as int));
            assert(s.last() == toks@[k as int]);
        }
        k = k + 1;
    }
    r
}

/// Whether `toks[start..k]` parses whole as one item of the given kind.
pub fn span_fits(toks: &Vec<Tok>, start: usize, k: usize, kind: Syntax) -> (r: bool)
    requires
        start <= k <= toks@.len(),
    ensures
        r == span_ok(toks@, start as int, k as int, kind),
{
    if start >= k {
        return false;
    }
    let text = span_text(toks, start, k);
    match kind {
        Syntax::Type => parses_as_type(&text),
        Syntax::Expr => parses_as_expr(&text),
        Syntax::Generics => parses_as_generics(&text),
        Syntax::Param => parses_as_generic_param(&text),
    }
}

/// Whether the text of `toks[lo..hi]` is one host-language visibility.
pub fn is_visibility(toks: &Vec<Tok>, lo: usize, hi: usize) -> (r: bool)
    requires
        lo <= hi <= toks@.len(),
    ensures
        r == is_rust_visibility(text_of(toks@.subrange(lo as int, hi as int))),
{
    parses_as_visibility(&span_text(toks, lo, hi))
}

/// Finds where the item of the given kind that starts at `start` ends.
pub fn scan_span(toks: &Vec<Tok>, start: usize, kind: Syntax) -> (r: Option<usize>)
    requires
        start <= toks@.len(),
    ensures
        match r {
            Some(e) => span_end(toks@, start as int, kind) == Some(e as int) && start < e
                <= toks@.len() && span_ok(toks@, start as int, e as int, kind),
            None => span_end(toks@, start as int, kind) is None,
        },
{
    proof {
        lemma_span_end_bounds(toks@, start as int, kind);
    }
    let mut k: usize = start;
    let mut nest: usize = 0;
    let mut best: Option<usize> = None;
    while k < toks.len()
        invariant
            start <= k <= toks@.len(),
            nest <= k,
            best matches Some(b) ==> start < b <= k && span_ok(toks@, start as int, b as int, kind),
            span_end(toks@, start as int, kind) == longest_end(
                toks@,
                start as int,
                k as int,
                nest as nat,
                kind,
                match best {
                    Some(b) => Some(b as int),
                    None => None,
                },
            ),
        decreases toks@.len() - k,
    {
        if nest == 0 && span_fits(toks, start, k, kind) {
            best = Some(k);
        }
        let t = &toks[k];
        if nest == 0 && matches!(t, Tok::Close(_)) {
            return best;
        }
        if matches!(t, Tok::Open(_)) {
            nest = nest + 1;
        } else if matches!(t, Tok::Close(_)) {
            nest = nest - 1;
        }
        k = k + 1;
    }
    if nest == 0 && span_fits(toks, start, k, kind) {
        best = Some(k);
    }
    best
}

/// Finds where the group open at `i` closes.
pub fn scan_group(toks: &Vec<Tok>, i: usize) -> (r: usize)
    requires
        i <= toks@.len(),
    ensures
        r == group_end(toks@, i as int, 0),
        i <= r <= toks@.len(),
{
    proof {
        lemma_group_end_bounds(toks@, i as int, 0);
    }
    let mut k: usize = i;
    let mut nest: usize = 0;
    while k < toks.len()
        invariant
            i <= k <= toks@.len(),
            nest <= k,
            group_end(toks@, i as int, 0) == group_end(toks@, k as int, nest as nat),
        decreases toks@.len() - k,
    {
        let t = &toks[k];
        if nest == 0 && matches!(t, Tok::Close(_)) {
            return k;
        }
        if matches!(t, Tok::Open(_)) {
            nest = nest + 1;
        } else if matches!(t, Tok::Close(_)) {
            nest = nest - 1;
        }
        k = k + 1;
    }
    k
}

} // verus!
