use vstd::prelude::*;

use crate::error::{fail, Expected, SyntaxError};
use crate::parser::res_view;
use crate::token::{
    arrow_at, close_at, copy_span, group_end, has_arrow, has_close, has_open, has_punct, has_word,
    ident_at, ident_of, is_rust_visibility, is_visibility, lemma_group_end_bounds,
    lemma_span_end_bounds, open_at, punct_at, scan_group, scan_span, span_end, text_of, word_at,
    Delim, Syntax, Tok,
};

verus! {

/// A whole tree schema: the location type, then the node kinds in order.
pub struct AbstractSyntaxTree {
    pub location: LocationInfo,
    pub nodes: Vec<Node>,
}

/// The type of the location tag carried by every node.
pub struct LocationInfo {
    pub datatype: Vec<Tok>,
}

/// One declared node kind.
pub struct Node {
    /// Visibility tokens, forwarded as they are (empty when private).
    pub visibility: Vec<Tok>,
    pub name: String,
    pub attrs: Option<NodeAttributes>,
    pub data: NodeData,
}

/// The annotation type declared by `where attrs: <type>`.
pub struct NodeAttributes {
    pub datatype: Vec<Tok>,
}

pub enum NodeData {
    Struct(NodeDataStruct),
    Enum(NodeDataEnum),
}

pub struct NodeDataStruct {
    pub members: Vec<NodeDataStructField>,
}

pub struct NodeDataStructField {
    pub name: String,
    pub datatype: Vec<Tok>,
}

pub struct NodeDataEnum {
    pub variants: Vec<NodeDataEnumVariant>,
}

pub struct NodeDataEnumVariant {
    pub name: String,
    pub datatype: Vec<Tok>,
}

/// A named entry (field or variant) with its type.
pub type EntryView = (Seq<char>, Seq<Tok>);

pub enum ShapeView {
    Fields(Seq<EntryView>),
    Variants(Seq<EntryView>),
}

pub struct NodeView {
    pub visibility: Seq<Tok>,
    pub name: Seq<char>,
    pub attrs: Option<Seq<Tok>>,
    pub shape: ShapeView,
}

pub struct TreeView {
    pub location: Seq<Tok>,
    pub nodes: Seq<NodeView>,
}

impl View for LocationInfo {
    type V = Seq<Tok>;

    open spec fn view(&self) -> Seq<Tok> {
        self.datatype@
    }
}

impl View for NodeAttributes {
    type V = Seq<Tok>;

    open spec fn view(&self) -> Seq<Tok> {
        self.datatype@
    }
}

impl View for NodeDataStructField {
    type V = EntryView;

    open spec fn view(&self) -> EntryView {
        (self.name@, self.datatype@)
    }
}

impl View for NodeDataEnumVariant {
    type V = EntryView;

    open spec fn view(&self) -> EntryView {
        (self.name@, self.datatype@)
    }
}

impl View for NodeDataStruct {
    type V = Seq<EntryView>;

    open spec fn view(&self) -> Seq<EntryView> {
        self.members@.map_values(|f: NodeDataStructField| f@)
    }
}

impl View for NodeDataEnum {
    type V = Seq<EntryView>;

    open spec fn view(&self) -> Seq<EntryView> {
        self.variants@.map_values(|v: NodeDataEnumVariant| v@)
    }
}

impl View for NodeData {
    type V = ShapeView;

    open spec fn view(&self) -> ShapeView {
        match self {
            NodeData::Struct(s) => ShapeView::Fields(s@),
            NodeData::Enum(e) => ShapeView::Variants(e@),
        }
    }
}

impl View for Node {
    type V = NodeView;

    open spec fn view(&self) -> NodeView {
        NodeView {
            visibility: self.visibility@,
            name: self.name@,
            attrs: match self.attrs {
                Some(a) => Some(a@),
                None => None,
            },
            shape: self.data@,
        }
    }
}

impl View for AbstractSyntaxTree {
    type V = TreeView;

    open spec fn view(&self) -> TreeView {
        TreeView { location: self.location@, nodes: self.nodes@.map_values(|n: Node| n@) }
    }
}

pub open spec fn ident_name(t: Tok) -> Seq<char> {
    match t {
        Tok::Ident(s) => s@,
        _ => Seq::empty(),
    }
}

/// Where the type that starts at `i` ends.
pub open spec fn type_end(t: Seq<Tok>, i: int) -> Option<int> {
    span_end(t, i, Syntax::Type)
}

/// `location = <type> ;`
pub open spec fn spec_location(t: Seq<Tok>, i: int) -> Result<(Seq<Tok>, int), SyntaxError> {
    if !word_at(t, i, "location"@) {
        fail(i, Expected::LocationKeyword)
    } else if !punct_at(t, i + 1, '=') {
        fail(i + 1, Expected::Equals)
    } else {
        match type_end(t, i + 2) {
            None => fail(i + 2, Expected::Type),
            Some(e) => if !punct_at(t, e, ';') {
                fail(e, Expected::Semicolon)
            } else {
                Ok((t.subrange(i + 2, e), e + 1))
            },
        }
    }
}

/// An optional visibility: nothing (or an empty invisible group), `pub`, or
/// `pub` with a parenthesized restriction when the two together parse as one
/// visibility.
pub open spec fn spec_visibility(t: Seq<Tok>, i: int) -> (Seq<Tok>, int) {
    if open_at(t, i, Delim::Invisible) && close_at(t, i + 1) {
        (Seq::empty(), i + 2)
    } else if !word_at(t, i, "pub"@) {
        (Seq::empty(), i)
    } else {
        let c = group_end(t, i + 2, 0);
        if open_at(t, i + 1, Delim::Paren) && close_at(t, c) && is_rust_visibility(
            text_of(t.subrange(i, c + 1)),
        ) {
            (t.subrange(i, c + 1), c + 1)
        } else {
            (t.subrange(i, i + 1), i + 1)
        }
    }
}

/// `where attrs : <type>`, the type followed by `=`.
pub open spec fn spec_attrs(t: Seq<Tok>, i: int) -> Result<(Seq<Tok>, int), SyntaxError> {
    if !word_at(t, i, "where"@) {
        fail(i, Expected::WhereKeyword)
    } else if !word_at(t, i + 1, "attrs"@) {
        fail(i + 1, Expected::AttrsKeyword)
    } else if !punct_at(t, i + 2, ':') {
        fail(i + 2, Expected::Colon)
    } else {
        match type_end(t, i + 3) {
            None => fail(i + 3, Expected::Type),
            Some(e) => Ok((t.subrange(i + 3, e), e)),
        }
    }
}

/// `name : <type>`, the type followed by a `,` or the closing brace.
pub open spec fn spec_field(t: Seq<Tok>, k: int) -> Result<(EntryView, int), SyntaxError> {
    if !ident_at(t, k) {
        fail(k, Expected::Ident)
    } else if !punct_at(t, k + 1, ':') {
        fail(k + 1, Expected::Colon)
    } else {
        match type_end(t, k + 2) {
            None => fail(k + 2, Expected::Type),
            Some(e) => Ok(((ident_name(t[k]), t.subrange(k + 2, e)), e)),
        }
    }
}

/// `name -> <type>`, the type followed by a `|` or `;`.
pub open spec fn spec_variant(t: Seq<Tok>, k: int) -> Result<(EntryView, int), SyntaxError> {
    if !ident_at(t, k) {
        fail(k, Expected::Ident)
    } else if !arrow_at(t, k + 1, '-') {
        fail(k + 1, Expected::Arrow)
    } else {
        match type_end(t, k + 3) {
            None => fail(k + 3, Expected::Type),
            Some(e) => Ok(((ident_name(t[k]), t.subrange(k + 3, e)), e)),
        }
    }
}

/// The fields of a brace-delimited record shape, from just after the `{`
/// through the closing brace: `name : <type>` entries separated by commas,
/// with an optional trailing comma.
pub open spec fn spec_fields(t: Seq<Tok>, k: int) -> Result<(Seq<EntryView>, int), SyntaxError>
    decreases t.len() - k,
    via spec_fields_decreases
{
    if k < 0 || k > t.len() {
        fail(k, Expected::Ident)
    } else if close_at(t, k) {
        Ok((Seq::empty(), k + 1))
    } else {
        match spec_field(t, k) {
            Err(err) => Err(err),
            Ok((f, e)) => if close_at(t, e) {
                Ok((seq![f], e + 1))
            } else if !punct_at(t, e, ',') {
                fail(e, Expected::Comma)
            } else {
                match spec_fields(t, e + 1) {
                    Ok((rest, j)) => Ok((rest.insert(0, f), j)),
                    Err(err) => Err(err),
                }
            },
        }
    }
}

/// `{ fields }`
pub open spec fn spec_struct(t: Seq<Tok>, i: int) -> Result<(Seq<EntryView>, int), SyntaxError> {
    if !open_at(t, i, Delim::Brace) {
        fail(i, Expected::OpenBrace)
    } else {
        spec_fields(t, i + 1)
    }
}

/// Variants `| name -> <type>` from `k` through the final `;`, none or more.
pub open spec fn spec_more_variants(t: Seq<Tok>, k: int) -> Result<
    (Seq<EntryView>, int),
    SyntaxError,
>
    decreases t.len() - k,
    via spec_more_variants_decreases
{
    if k < 0 || k > t.len() {
        fail(k, Expected::Bar)
    } else if punct_at(t, k, ';') {
        Ok((Seq::empty(), k + 1))
    } else if !punct_at(t, k, '|') {
        fail(k, Expected::Bar)
    } else {
        match spec_variant(t, k + 1) {
            Err(err) => Err(err),
            Ok((v, e)) => match spec_more_variants(t, e) {
                Ok((rest, j)) => Ok((rest.insert(0, v), j)),
                Err(err) => Err(err),
            },
        }
    }
}

/// A union shape: one or more variants `| name -> <type>`, then `;`.
pub open spec fn spec_variants(t: Seq<Tok>, k: int) -> Result<(Seq<EntryView>, int), SyntaxError> {
    if !punct_at(t, k, '|') {
        fail(k, Expected::Bar)
    } else {
        spec_more_variants(t, k)
    }
}

#[via_fn]
proof fn spec_fields_decreases(t: Seq<Tok>, k: int) {
    if 0 <= k && k + 2 <= t.len() {
        lemma_span_end_bounds(t, k + 2, Syntax::Type);
    }
}

#[via_fn]
proof fn spec_more_variants_decreases(t: Seq<Tok>, k: int) {
    if 0 <= k && k + 4 <= t.len() {
        lemma_span_end_bounds(t, k + 4, Syntax::Type);
    }
}

/// A shape: a union when it starts with `|`, a record otherwise.
pub open spec fn spec_shape(t: Seq<Tok>, i: int) -> Result<(ShapeView, int), SyntaxError> {
    if punct_at(t, i, '|') {
        match spec_variants(t, i) {
            Ok((vs, j)) => Ok((ShapeView::Variants(vs), j)),
            Err(e) => Err(e),
        }
    } else {
        match spec_struct(t, i) {
            Ok((fs, j)) => Ok((ShapeView::Fields(fs), j)),
            Err(e) => Err(e),
        }
    }
}

/// `<visibility>? node <ident> (where attrs : <type>)? = <shape>`
pub open spec fn spec_node(t: Seq<Tok>, i: int) -> Result<(NodeView, int), SyntaxError> {
    let (vis, k) = spec_visibility(t, i);
    if !word_at(t, k, "node"@) {
        fail(k, Expected::NodeKeyword)
    } else if !ident_at(t, k + 1) {
        fail(k + 1, Expected::Ident)
    } else {
        let attrs = if word_at(t, k + 2, "where"@) {
            match spec_attrs(t, k + 2) {
                Ok((a, m)) => Ok((Some(a), m)),
                Err(e) => Err(e),
            }
        } else {
            Ok((None, k + 2))
        };
        match attrs {
            Err(e) => Err(e),
            Ok((attrs, m)) => if !punct_at(t, m, '=') {
                fail(m, Expected::Equals)
            } else {
                match spec_shape(t, m + 1) {
                    Err(e) => Err(e),
                    Ok((shape, j)) => Ok(
                        (NodeView { visibility: vis, name: ident_name(t[k + 1]), attrs, shape }, j),
                    ),
                }
            },
        }
    }
}

/// The node declarations from `k` to the end of the input.
pub open spec fn spec_nodes(t: Seq<Tok>, k: int) -> Result<(Seq<NodeView>, int), SyntaxError>
    decreases t.len() - k,
    via spec_nodes_decreases
{
    if k < 0 || k >= t.len() {
        Ok((Seq::empty(), k))
    } else {
        match spec_node(t, k) {
            Err(e) => Err(e),
            Ok((n, j)) => match spec_nodes(t, j) {
                Err(e) => Err(e),
                Ok((rest, m)) => Ok((rest.insert(0, n), m)),
            },
        }
    }
}

#[via_fn]
proof fn spec_nodes_decreases(t: Seq<Tok>, k: int) {
    if 0 <= k < t.len() {
        lemma_node_advances(t, k);
    }
}

proof fn lemma_fields_advance(t: Seq<Tok>, k: int)
    requires
        0 <= k <= t.len(),
    ensures
        spec_fields(t, k) matches Ok((_, j)) ==> k < j <= t.len(),
    decreases t.len() - k,
{
    if !close_at(t, k) && ident_at(t, k) && punct_at(t, k + 1, ':') {
        lemma_span_end_bounds(t, k + 2, Syntax::Type);
        if let Some(e) = type_end(t, k + 2) {
            if !close_at(t, e) && punct_at(t, e, ',') {
                lemma_fields_advance(t, e + 1);
            }
        }
    }
}

proof fn lemma_variants_advance(t: Seq<Tok>, k: int)
    requires
        0 <= k <= t.len(),
    ensures
        spec_more_variants(t, k) matches Ok((_, j)) ==> k < j <= t.len(),
    decreases t.len() - k,
{
    if !punct_at(t, k, ';') && punct_at(t, k, '|') && ident_at(t, k + 1) && arrow_at(t, k + 2, '-') {
        lemma_span_end_bounds(t, k + 4, Syntax::Type);
        if let Some(e) = type_end(t, k + 4) {
            lemma_variants_advance(t, e);
        }
    }
}

proof fn lemma_node_advances(t: Seq<Tok>, i: int)
    requires
        0 <= i <= t.len(),
    ensures
        spec_node(t, i) matches Ok((_, j)) ==> i < j <= t.len(),
{
    if word_at(t, i, "pub"@) && i + 2 <= t.len() {
        lemma_group_end_bounds(t, i + 2, 0);
    }
    let (_, k) = spec_visibility(t, i);
    assert(i <= k <= t.len());
    if word_at(t, k, "node"@) && ident_at(t, k + 1) {
        if word_at(t, k + 2, "where"@) && word_at(t, k + 3, "attrs"@) && punct_at(t, k + 4, ':') {
            lemma_span_end_bounds(t, k + 5, Syntax::Type);
        }
        if let Ok((_, m)) = (if word_at(t, k + 2, "where"@) {
            match spec_attrs(t, k + 2) {
                Ok((a, m)) => Ok((Some(a), m)),
                Err(e) => Err(e),
            }
        } else {
            Ok::<(Option<Seq<Tok>>, int), SyntaxError>((None, k + 2))
        }) {
            if 0 <= m < t.len() && punct_at(t, m, '=') {
                if punct_at(t, m + 1, '|') {
                    lemma_variants_advance(t, m + 1);
                } else if open_at(t, m + 1, Delim::Brace) {
                    lemma_fields_advance(t, m + 2);
                }
            }
        }
    }
}

/// `location = <type> ;` followed by node declarations up to the end.
pub open spec fn spec_tree(t: Seq<Tok>) -> Result<TreeView, SyntaxError> {
    match spec_location(t, 0) {
        Err(e) => Err(e),
        Ok((location, k)) => match spec_nodes(t, k) {
            Err(e) => Err(e),
            Ok((nodes, _)) => Ok(TreeView { location, nodes }),
        },
    }
}

fn parse_visibility(toks: &Vec<Tok>, i: usize) -> (r: (Vec<Tok>, usize))
    requires
        i <= toks.len(),
    ensures
        (r.0@, r.1 as int) == spec_visibility(toks@, i as int),
        i <= r.1 <= toks@.len(),
{
    if has_open(toks, i, Delim::Invisible) && has_close(toks, i + 1) {
        return (Vec::new(), i + 2);
    }
    if !has_word(toks, i, "pub") {
        return (Vec::new(), i);
    }
    if has_open(toks, i + 1, Delim::Paren) {
        let c = scan_group(toks, i + 2);
        if has_close(toks, c) && is_visibility(toks, i, c + 1) {
            return (copy_span(toks, i, c + 1), c + 1);
        }
    }
    (copy_span(toks, i, i + 1), i + 1)
}

fn parse_type(toks: &Vec<Tok>, i: usize) -> (r: Option<usize>)
    requires
        i <= toks.len(),
    ensures
        match r {
            Some(e) => type_end(toks@, i as int) == Some(e as int) && i < e <= toks@.len(),
            None => type_end(toks@, i as int) is None,
        },
{
    scan_span(toks, i, Syntax::Type)
}

impl LocationInfo {
    /// Parses `location = <type> ;` at `i`.
    pub fn parse(toks: &Vec<Tok>, i: usize) -> (r: Result<(LocationInfo, usize), SyntaxError>)
        requires
            i <= toks.len(),
        ensures
            res_view(r) == spec_location(toks@, i as int),
            r matches Ok((_, j)) ==> i < j <= toks@.len(),
    {
        if !has_word(toks, i, "location") {
            return Err(SyntaxError { pos: i, expected: Expected::LocationKeyword });
        }
        if !has_punct(toks, i + 1, '=') {
            return Err(SyntaxError { pos: i + 1, expected: Expected::Equals });
        }
        let e = match parse_type(toks, i + 2) {
            Some(e) => e,
            None => {
                return Err(SyntaxError { pos: i + 2, expected: Expected::Type });
            },
        };
        if !has_punct(toks, e, ';') {
            return Err(SyntaxError { pos: e, expected: Expected::Semicolon });
        }
        Ok((LocationInfo { datatype: copy_span(toks, i + 2, e) }, e + 1))
    }
}

impl NodeAttributes {
    /// Parses `where attrs : <type>` at `i`.
    pub fn parse(toks: &Vec<Tok>, i: usize) -> (r: Result<(NodeAttributes, usize), SyntaxError>)
        requires
            i <= toks.len(),
        ensures
            res_view(r) == spec_attrs(toks@, i as int),
            r matches Ok((_, j)) ==> i < j <= toks@.len(),
    {
        if !has_word(toks, i, "where") {
            return Err(SyntaxError { pos: i, expected: Expected::WhereKeyword });
        }
        if !has_word(toks, i + 1, "attrs") {
            return Err(SyntaxError { pos: i + 1, expected: Expected::AttrsKeyword });
        }
        if !has_punct(toks, i + 2, ':') {
            return Err(SyntaxError { pos: i + 2, expected: Expected::Colon });
        }
        match parse_type(toks, i + 3) {
            Some(e) => Ok((NodeAttributes { datatype: copy_span(toks, i + 3, e) }, e)),
            None => Err(SyntaxError { pos: i + 3, expected: Expected::Type }),
        }
    }
}

impl NodeDataStructField {
    /// Parses `name : <type>` at `k`.
    pub fn parse(toks: &Vec<Tok>, k: usize) -> (r: Result<(NodeDataStructField, usize), SyntaxError>)
        requires
            k <= toks.len(),
        ensures
            res_view(r) == spec_field(toks@, k as int),
            r matches Ok((_, j)) ==> k < j <= toks@.len(),
    {
        let name = match ident_of(toks, k) {
            Some(s) => s,
            None => {
                return Err(SyntaxError { pos: k, expected: Expected::Ident });
            },
        };
        if !has_punct(toks, k + 1, ':') {
            return Err(SyntaxError { pos: k + 1, expected: Expected::Colon });
        }
        match parse_type(toks, k + 2) {
            Some(e) => Ok((NodeDataStructField { name, datatype: copy_span(toks, k + 2, e) }, e)),
            None => Err(SyntaxError { pos: k + 2, expected: Expected::Type }),
        }
    }
}

impl NodeDataEnumVariant {
    /// Parses `name -> <type>` at `k`.
    pub fn parse(toks: &Vec<Tok>, k: usize) -> (r: Result<(NodeDataEnumVariant, usize), SyntaxError>)
        requires
            k <= toks.len(),
        ensures
            res_view(r) == spec_variant(toks@, k as int),
            r matches Ok((_, j)) ==> k < j <= toks@.len(),
    {
        let name = match ident_of(toks, k) {
            Some(s) => s,
            None => {
                return Err(SyntaxError { pos: k, expected: Expected::Ident });
            },
        };
        if !has_arrow(toks, k + 1, '-') {
            return Err(SyntaxError { pos: k + 1, expected: Expected::Arrow });
        }
        match parse_type(toks, k + 3) {
            Some(e) => Ok((NodeDataEnumVariant { name, datatype: copy_span(toks, k + 3, e) }, e)),
            None => Err(SyntaxError { pos: k + 3, expected: Expected::Type }),
        }
    }
}

fn parse_fields(toks: &Vec<Tok>, k: usize) -> (r: Result<(NodeDataStruct, usize), SyntaxError>)
    requires
        k <= toks.len(),
    ensures
        res_view(r) == spec_fields(toks@, k as int),
        r matches Ok((_, j)) ==> k < j <= toks@.len(),
    decreases toks@.len() - k,
{
    if has_close(toks, k) {
        let members: Vec<NodeDataStructField> = Vec::new();
        proof {
            assert(members@.map_values(|f: NodeDataStructField| f@) =~= Seq::<EntryView>::empty());
        }
        return Ok((NodeDataStruct { members }, k + 1));
    }
    let (f, e) = match NodeDataStructField::parse(toks, k) {
        Ok(p) => p,
        Err(err) => {
            return Err(err);
        },
    };
    if has_close(toks, e) {
        let mut members: Vec<NodeDataStructField> = Vec::new();
        members.push(f);
        proof {
            assert(members@.map_values(|f: NodeDataStructField| f@) =~= seq![f@]);
        }
        return Ok((NodeDataStruct { members }, e + 1));
    }
    if !has_punct(toks, e, ',') {
        return Err(SyntaxError { pos: e, expected: Expected::Comma });
    }
    match parse_fields(toks, e + 1) {
        Ok((rest, j)) => {
            let ghost old_view = rest@;
            let mut rest = rest;
            rest.members.insert(0, f);
            proof {
                assert(rest@ =~= old_view.insert(0, f@));
            }
            Ok((rest, j))
        },
        Err(err) => Err(err),
    }
}

impl NodeDataStruct {
    /// Parses a brace-delimited record shape at `i`.
    pub fn parse(toks: &Vec<Tok>, i: usize) -> (r: Result<(NodeDataStruct, usize), SyntaxError>)
        requires
            i <= toks.len(),
        ensures
            res_view(r) == spec_struct(toks@, i as int),
            r matches Ok((_, j)) ==> i < j <= toks@.len(),
    {
        if !has_open(toks, i, Delim::Brace) {
            return Err(SyntaxError { pos: i, expected: Expected::OpenBrace });
        }
        parse_fields(toks, i + 1)
    }
}

fn parse_more_variants(toks: &Vec<Tok>, k: usize) -> (r: Result<(NodeDataEnum, usize), SyntaxError>)
    requires
        k <= toks.len(),
    ensures
        res_view(r) == spec_more_variants(toks@, k as int),
        r matches Ok((_, j)) ==> k < j <= toks@.len(),
    decreases toks@.len() - k,
{
    if has_punct(toks, k, ';') {
        let variants: Vec<NodeDataEnumVariant> = Vec::new();
        proof {
            assert(variants@.map_values(|v: NodeDataEnumVariant| v@) =~= Seq::<EntryView>::empty());
        }
        return Ok((NodeDataEnum { variants }, k + 1));
    }
    if !has_punct(toks, k, '|') {
        return Err(SyntaxError { pos: k, expected: Expected::Bar });
    }
    let (v, e) = match NodeDataEnumVariant::parse(toks, k + 1) {
        Ok(p) => p,
        Err(err) => {
            return Err(err);
        },
    };
    match parse_more_variants(toks, e) {
        Ok((rest, j)) => {
            let ghost old_view = rest@;
            let mut rest = rest;
            rest.variants.insert(0, v);
            proof {
                assert(rest@ =~= old_view.insert(0, v@));
            }
            Ok((rest, j))
        },
        Err(err) => Err(err),
    }
}

impl NodeDataEnum {
    /// Parses a union shape at `k`: one or more variants, through the final `;`.
    pub fn parse(toks: &Vec<Tok>, k: usize) -> (r: Result<(NodeDataEnum, usize), SyntaxError>)
        requires
            k <= toks.len(),
        ensures
            res_view(r) == spec_variants(toks@, k as int),
            r matches Ok((e, j)) ==> k < j <= toks@.len() && e.variants@.len() > 0,
    {
        if !has_punct(toks, k, '|') {
            return Err(SyntaxError { pos: k, expected: Expected::Bar });
        }
        let r = parse_more_variants(toks, k);
        assert(r matches Ok((e, _)) ==> e@.len() == e.variants@.len());
        r
    }
}

impl NodeData {
    /// Parses a shape at `i`: a union when it starts with `|`, a record otherwise.
    pub fn parse(toks: &Vec<Tok>, i: usize) -> (r: Result<(NodeData, usize), SyntaxError>)
        requires
            i <= toks.len(),
        ensures
            res_view(r) == spec_shape(toks@, i as int),
            r matches Ok((_, j)) ==> i < j <= toks@.len(),
    {
        if has_punct(toks, i, '|') {
            match NodeDataEnum::parse(toks, i) {
                Ok((e, j)) => Ok((NodeData::Enum(e), j)),
                Err(err) => Err(err),
            }
        } else {
            match NodeDataStruct::parse(toks, i) {
                Ok((s, j)) => Ok((NodeData::Struct(s), j)),
                Err(err) => Err(err),
            }
        }
    }
}

impl Node {
    /// Parses one node declaration at `i`.
    pub fn parse(toks: &Vec<Tok>, i: usize) -> (r: Result<(Node, usize), SyntaxError>)
        requires
            i <= toks.len(),
        ensures
            res_view(r) == spec_node(toks@, i as int),
            r matches Ok((_, j)) ==> i < j <= toks@.len(),
    {
        let (visibility, k) = parse_visibility(toks, i);
        if !has_word(toks, k, "node") {
            return Err(SyntaxError { pos: k, expected: Expected::NodeKeyword });
        }
        let name = match ident_of(toks, k + 1) {
            Some(s) => s,
            None => {
                return Err(SyntaxError { pos: k + 1, expected: Expected::Ident });
            },
        };
        let (attrs, m) = if has_word(toks, k + 2, "where") {
            match NodeAttributes::parse(toks, k + 2) {
                Ok((a, m)) => (Some(a), m),
                Err(e) => {
                    return Err(e);
                },
            }
        } else {
            (None, k + 2)
        };
        if !has_punct(toks, m, '=') {
            return Err(SyntaxError { pos: m, expected: Expected::Equals });
        }
        match NodeData::parse(toks, m + 1) {
            Ok((data, j)) => Ok((Node { visibility, name, attrs, data }, j)),
            Err(e) => Err(e),
        }
    }
}

fn parse_nodes(toks: &Vec<Tok>, k: usize) -> (r: Result<(Vec<Node>, usize), SyntaxError>)
    requires
        k <= toks.len(),
    ensures
        match (r, spec_nodes(toks@, k as int)) {
            (Ok((v, j)), Ok((sv, sj))) => v@.map_values(|n: Node| n@) == sv && j == sj,
            (Err(e), Err(se)) => e == se,
            _ => false,
        },
    decreases toks@.len() - k,
{
    if k >= toks.len() {
        let v: Vec<Node> = Vec::new();
        proof {
            assert(v@.map_values(|n: Node| n@) =~= Seq::<NodeView>::empty());
        }
        return Ok((v, k));
    }
    match Node::parse(toks, k) {
        Err(e) => Err(e),
        Ok((n, j)) => match parse_nodes(toks, j) {
            Err(e) => Err(e),
            Ok((rest, m)) => {
                let ghost old_view = rest@.map_values(|n: Node| n@);
                let mut rest = rest;
                rest.insert(0, n);
                proof {
                    assert(rest@.map_values(|n: Node| n@) =~= old_view.insert(0, n@));
                }
                Ok((rest, m))
            },
        },
    }
}

impl AbstractSyntaxTree {
    /// Parses a whole tree schema.
    pub fn parse(toks: &Vec<Tok>) -> (r: Result<AbstractSyntaxTree, SyntaxError>)
        ensures
            match (r, spec_tree(toks@)) {
                (Ok(a), Ok(v)) => a@ == v,
                (Err(e), Err(se)) => e == se,
                _ => false,
            },
    {
        let (location, k) = match LocationInfo::parse(toks, 0) {
            Ok(p) => p,
            Err(e) => {
                return Err(e);
            },
        };
        match parse_nodes(toks, k) {
            Ok((nodes, _)) => Ok(AbstractSyntaxTree { location, nodes }),
            Err(e) => Err(e),
        }
    }
}

/// Two parses of the same tokens give structurally equal schemas, or the same error.
pub proof fn lemma_tree_reparse(
    toks: Seq<Tok>,
    r1: Result<TreeView, SyntaxError>,
    r2: Result<TreeView, SyntaxError>,
)
    requires
        r1 == spec_tree(toks),
        r2 == spec_tree(toks),
    ensures
        r1 == r2,
{
}

} // verus!
