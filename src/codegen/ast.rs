use vstd::prelude::*;

use crate::parser::ast::{
    spec_tree, AbstractSyntaxTree, EntryView, Node, NodeData, NodeDataEnumVariant, NodeDataStructField,
    NodeView, ShapeView, TreeView,
};
use crate::error::SyntaxError;
use crate::token::{copy_span, Delim, Tok};

verus! {

/// A named member of a generated record, or a case of a generated union.
pub struct Entry {
    pub name: String,
    pub datatype: Vec<Tok>,
}

/// One generated definition of a tree schema.
pub enum Definition {
    /// The annotation-type trait and the generic node wrapper, with its location type.
    Wrapper { location: Vec<Tok> },
    /// A record node kind.
    Record { visibility: Vec<Tok>, name: String, members: Vec<Entry> },
    /// A tagged-union node kind; each case wraps its payload type.
    Union { visibility: Vec<Tok>, name: String, cases: Vec<Entry> },
    /// The association of a node kind with its annotation type.
    AttributesImpl { name: String, datatype: Vec<Tok> },
}

pub enum DefView {
    Wrapper { location: Seq<Tok> },
    Record { visibility: Seq<Tok>, name: Seq<char>, members: Seq<EntryView> },
    Union { visibility: Seq<Tok>, name: Seq<char>, cases: Seq<EntryView> },
    AttributesImpl { name: Seq<char>, datatype: Seq<Tok> },
}

impl View for Entry {
    type V = EntryView;

    open spec fn view(&self) -> EntryView {
        (self.name@, self.datatype@)
    }
}

impl View for Definition {
    type V = DefView;

    open spec fn view(&self) -> DefView {
        match self {
            Definition::Wrapper { location } => DefView::Wrapper { location: location@ },
            Definition::Record { visibility, name, members } => DefView::Record {
                visibility: visibility@,
                name: name@,
                members: members@.map_values(|e: Entry| e@),
            },
            Definition::Union { visibility, name, cases } => DefView::Union {
                visibility: visibility@,
                name: name@,
                cases: cases@.map_values(|e: Entry| e@),
            },
            Definition::AttributesImpl { name, datatype } => DefView::AttributesImpl {
                name: name@,
                datatype: datatype@,
            },
        }
    }
}

/// The unit type `()`.
pub open spec fn unit_type() -> Seq<Tok> {
    seq![Tok::Open(Delim::Paren), Tok::Close(Delim::Paren)]
}

/// The annotation type of a node kind: the declared one, or the unit type.
pub open spec fn annotation_type(n: NodeView) -> Seq<Tok> {
    match n.attrs {
        Some(a) => a,
        None => unit_type(),
    }
}

/// The type definition of a node kind.
pub open spec fn shape_def(n: NodeView) -> DefView {
    match n.shape {
        ShapeView::Fields(fs) => DefView::Record {
            visibility: n.visibility,
            name: n.name,
            members: fs,
        },
        ShapeView::Variants(vs) => DefView::Union {
            visibility: n.visibility,
            name: n.name,
            cases: vs,
        },
    }
}

/// The definitions of one node kind: its type, then its annotation association.
pub open spec fn node_defs(n: NodeView) -> Seq<DefView> {
    seq![shape_def(n), DefView::AttributesImpl { name: n.name, datatype: annotation_type(n) }]
}

pub open spec fn defs_of_nodes(ns: Seq<NodeView>) -> Seq<DefView>
    decreases ns.len(),
{
    if ns.len() == 0 {
        Seq::empty()
    } else {
        defs_of_nodes(ns.drop_last()) + node_defs(ns.last())
    }
}

/// What a tree schema generates: the wrapper, then each node kind's definitions
/// in declaration order.
pub open spec fn tree_defs(t: TreeView) -> Seq<DefView> {
    seq![DefView::Wrapper { location: t.location }] + defs_of_nodes(t.nodes)
}

fn copy_tokens(v: &Vec<Tok>) -> (r: Vec<Tok>)
    ensures
        r@ == v@,
{
    let r = copy_span(v, 0, v.len());
    assert(r@ =~= v@);
    r
}

fn field_entries(fs: &Vec<NodeDataStructField>) -> (r: Vec<Entry>)
    ensures
        r@.map_values(|e: Entry| e@) == fs@.map_values(|f: NodeDataStructField| f@),
{
    let mut r: Vec<Entry> = Vec::new();
    let mut k: usize = 0;
    while k < fs.len()
        invariant
            k <= fs@.len(),
            r@.map_values(|e: Entry| e@) == fs@.subrange(0, k as int).map_values(
                |f: NodeDataStructField| f@,
            ),
        decreases fs@.len() - k,
    {
        let f = &fs[k];
        let e = Entry { name: f.name.clone(), datatype: copy_tokens(&f.datatype) };
        let ghost before = r@.map_values(|e: Entry| e@);
        assert(e@ == fs@[k as int]@);
        r.push(e);
        proof {
            assert(r@.map_values(|e: Entry| e@) =~= before.push(fs@[k as int]@));
            assert(fs@.subrange(0, k + 1).map_values(|f: NodeDataStructField| f@) =~= fs@.subrange(
                0,
                k as int,
            ).map_values(|f: NodeDataStructField| f@).push(fs@[k as int]@));
        }
        k = k + 1;
    }
    assert(fs@.subrange(0, k as int) =~= fs@);
    r
}

fn variant_entries(vs: &Vec<NodeDataEnumVariant>) -> (r: Vec<Entry>)
    ensures
        r@.map_values(|e: Entry| e@) == vs@.map_values(|v: NodeDataEnumVariant| v@),
{
    let mut r: Vec<Entry> = Vec::new();
    let mut k: usize = 0;
    while k < vs.len()
        invariant
            k <= vs@.len(),
            r@.map_values(|e: Entry| e@) == vs@.subrange(0, k as int).map_values(
                |v: NodeDataEnumVariant| v@,
            ),
        decreases vs@.len() - k,
    {
        let v = &vs[k];
        let e = Entry { name: v.name.clone(), datatype: copy_tokens(&v.datatype) };
        let ghost before = r@.map_values(|e: Entry| e@);
        assert(e@ == vs@[k as int]@);
        r.push(e);
        proof {
            assert(r@.map_values(|e: Entry| e@) =~= before.push(vs@[k as int]@));
            assert(vs@.subrange(0, k + 1).map_values(|v: NodeDataEnumVariant| v@) =~= vs@.subrange(
                0,
                k as int,
            ).map_values(|v: NodeDataEnumVariant| v@).push(vs@[k as int]@));
        }
        k = k + 1;
    }
    assert(vs@.subrange(0, k as int) =~= vs@);
    r
}

/// The type definition of one node kind.
pub fn node_type_def(n: &Node) -> (r: Definition)
    ensures
        r@ == shape_def(n@),
{
    match &n.data {
        NodeData::Struct(s) => Definition::Record {
            visibility: copy_tokens(&n.visibility),
            name: n.name.clone(),
            members: field_entries(&s.members),
        },
        NodeData::Enum(e) => Definition::Union {
            visibility: copy_tokens(&n.visibility),
            name: n.name.clone(),
            cases: variant_entries(&e.variants),
        },
    }
}

/// The association of one node kind with its annotation type.
pub fn node_attributes_def(n: &Node) -> (r: Definition)
    ensures
        r@ == (DefView::AttributesImpl { name: n@.name, datatype: annotation_type(n@) }),
{
    let datatype = match &n.attrs {
        Some(a) => copy_tokens(&a.datatype),
        None => {
            let mut v: Vec<Tok> = Vec::new();
            v.push(Tok::Open(Delim::Paren));
            v.push(Tok::Close(Delim::Paren));
            assert(v@ =~= unit_type());
            v
        },
    };
    Definition::AttributesImpl { name: n.name.clone(), datatype }
}

/// Lowers a tree schema to its definitions.
pub fn lower(tree: &AbstractSyntaxTree) -> (r: Vec<Definition>)
    ensures
        r@.map_values(|d: Definition| d@) == tree_defs(tree@),
{
    let mut r: Vec<Definition> = Vec::new();
    r.push(Definition::Wrapper { location: copy_tokens(&tree.location.datatype) });
    let ghost nodes = tree@.nodes;
    let mut k: usize = 0;
    assert(nodes.take(0) =~= Seq::<NodeView>::empty());
    assert(r@.map_values(|d: Definition| d@) =~= seq![DefView::Wrapper { location: tree@.location }]
        + defs_of_nodes(nodes.take(0)));
    while k < tree.nodes.len()
        invariant
            k <= tree.nodes@.len(),
            nodes == tree@.nodes,
            nodes.len() == tree.nodes@.len(),
            r@.map_values(|d: Definition| d@) == seq![DefView::Wrapper { location: tree@.location }]
                + defs_of_nodes(nodes.take(k as int)),
        decreases tree.nodes@.len() - k,
    {
        let n = &tree.nodes[k];
        let ghost before = r@.map_values(|d: Definition| d@);
        r.push(node_type_def(n));
        r.push(node_attributes_def(n));
        proof {
            assert(nodes[k as int] == n@);
            assert(nodes.take(k + 1).drop_last() =~= nodes.take(k as int));
            assert(r@.map_values(|d: Definition| d@) =~= before + node_defs(n@));
        }
        k = k + 1;
    }
    assert(nodes.take(k as int) =~= nodes);
    r
}

proof fn lemma_defs_of_nodes_index(ns: Seq<NodeView>, i: int)
    requires
        0 <= i < ns.len(),
    ensures
        defs_of_nodes(ns).len() == 2 * ns.len(),
        defs_of_nodes(ns)[2 * i] == shape_def(ns[i]),
        defs_of_nodes(ns)[2 * i + 1] == (DefView::AttributesImpl {
            name: ns[i].name,
            datatype: annotation_type(ns[i]),
        }),
    decreases ns.len(),
{
    lemma_defs_of_nodes_len(ns);
    if i < ns.len() - 1 {
        lemma_defs_of_nodes_index(ns.drop_last(), i);
    }
}

proof fn lemma_defs_of_nodes_len(ns: Seq<NodeView>)
    ensures
        defs_of_nodes(ns).len() == 2 * ns.len(),
    decreases ns.len(),
{
    if ns.len() > 0 {
        lemma_defs_of_nodes_len(ns.drop_last());
    }
}

/// A record node kind is generated as one record whose members are the
/// declared fields: as many, with the same names and types, in the same order.
pub proof fn lemma_record_members(t: TreeView, i: int)
    requires
        0 <= i < t.nodes.len(),
        t.nodes[i].shape is Fields,
    ensures
        tree_defs(t)[2 * i + 1] == (DefView::Record {
            visibility: t.nodes[i].visibility,
            name: t.nodes[i].name,
            members: t.nodes[i].shape->Fields_0,
        }),
{
    lemma_defs_of_nodes_index(t.nodes, i);
}

/// A union node kind is generated as one union with exactly the declared
/// cases, each wrapping its declared payload type, in the same order.
pub proof fn lemma_union_cases(t: TreeView, i: int)
    requires
        0 <= i < t.nodes.len(),
        t.nodes[i].shape is Variants,
    ensures
        tree_defs(t)[2 * i + 1] == (DefView::Union {
            visibility: t.nodes[i].visibility,
            name: t.nodes[i].name,
            cases: t.nodes[i].shape->Variants_0,
        }),
{
    lemma_defs_of_nodes_index(t.nodes, i);
}

/// Every node kind is associated with the unit annotation type when it declares
/// none, and with exactly the declared type otherwise.
pub proof fn lemma_annotation_type(t: TreeView, i: int)
    requires
        0 <= i < t.nodes.len(),
    ensures
        tree_defs(t).len() == 2 * t.nodes.len() + 1,
        tree_defs(t)[2 * i + 2] is AttributesImpl,
        tree_defs(t)[2 * i + 2]->AttributesImpl_name == t.nodes[i].name,
        t.nodes[i].attrs is None ==> tree_defs(t)[2 * i + 2]->AttributesImpl_datatype
            == unit_type(),
        t.nodes[i].attrs matches Some(a) ==> tree_defs(t)[2 * i + 2]->AttributesImpl_datatype
            == a,
{
    lemma_defs_of_nodes_index(t.nodes, i);
}

/// Parses a tree schema and lowers it to its definitions; a syntax error stops
/// the whole run and nothing is generated.
pub fn generate(toks: &Vec<Tok>) -> (r: Result<Vec<Definition>, SyntaxError>)
    ensures
        match (r, spec_tree(toks@)) {
            (Ok(defs), Ok(v)) => defs@.map_values(|d: Definition| d@) == tree_defs(v),
            (Err(e), Err(se)) => e == se,
            _ => false,
        },
{
    match AbstractSyntaxTree::parse(toks) {
        Ok(tree) => Ok(lower(&tree)),
        Err(e) => Err(e),
    }
}

} // verus!
