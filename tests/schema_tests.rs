use astmaker::codegen::ast::{generate as generate_tree, Definition};
use astmaker::codegen::model::{generate as generate_model, generic_args_of, impl_generics_of, Dispatch, ParamName};
use astmaker::error::{Expected, SyntaxError};
use astmaker::parser::ast::{AbstractSyntaxTree, NodeData, NodeDataEnum, NodeAttributes, NodeDataEnumVariant, NodeDataStructField};
use astmaker::parser::model::{Clause, Model};
use astmaker::token::{Delim, Tok};

fn is_punct_char(c: char) -> bool {
    !c.is_alphanumeric() && c != '_' && !c.is_whitespace() && !"(){}[]".contains(c)
}

/// Splits text into tokens the way a macro input arrives, flattened.
fn lex(s: &str) -> Vec<Tok> {
    let chars: Vec<char> = s.chars().collect();
    let mut out = Vec::new();
    let mut i = 0;
    while i < chars.len() {
        let c = chars[i];
        if c.is_whitespace() {
            i += 1;
        } else if c.is_alphanumeric() || c == '_' {
            let start = i;
            while i < chars.len() && (chars[i].is_alphanumeric() || chars[i] == '_' || chars[i] == '.' && chars[start].is_ascii_digit()) {
                i += 1;
            }
            let word: String = chars[start..i].iter().collect();
            if chars[start].is_ascii_digit() {
                out.push(Tok::Lit(word));
            } else {
                out.push(Tok::Ident(word));
            }
        } else if let Some(d) = match c {
            '(' | ')' => Some(Delim::Paren),
            '{' | '}' => Some(Delim::Brace),
            '[' | ']' => Some(Delim::Bracket),
            _ => None,
        } {
            if "({[".contains(c) {
                out.push(Tok::Open(d));
            } else {
                out.push(Tok::Close(d));
            }
            i += 1;
        } else {
            let next = chars.get(i + 1).copied();
            let joint = match next {
                Some(n) => is_punct_char(n) || (c == '\'' && n.is_alphanumeric()),
                None => false,
            };
            out.push(Tok::Punct(c, joint));
            i += 1;
        }
    }
    out
}

fn text(toks: &[Tok]) -> String {
    let mut s = String::new();
    for t in toks {
        match t {
            Tok::Ident(w) | Tok::Lit(w) => s.push_str(w),
            Tok::Punct(c, _) => s.push(*c),
            Tok::Open(Delim::Paren) => s.push('('),
            Tok::Close(Delim::Paren) => s.push(')'),
            Tok::Open(Delim::Brace) => s.push('{'),
            Tok::Close(Delim::Brace) => s.push('}'),
            Tok::Open(Delim::Bracket) => s.push('['),
            Tok::Close(Delim::Bracket) => s.push(']'),
            Tok::Open(Delim::Invisible) | Tok::Close(Delim::Invisible) => {},
        }
        s.push(' ');
    }
    s.trim_end().to_string()
}

const EXPR_TREE: &str = "
  location = ( ) ;
  pub node Expression =
    | BinOp -> Node<BinaryOperation>
    | UnOp -> Node<UnaryOperation>
    | Num -> Node<Number>
    ;
  pub node BinaryOperation = {
    lhs: Node<Expression>,
    op: BinOp,
    rhs: Node<Expression>,
  }
  pub node UnaryOperation = {
    op: UnOp,
    expr: Node<Expression>,
  }
  pub node Number = {
    value: f64,
  }
";

const PROGRAM_TREE: &str = "
  location = ( ) ;
  pub node Program = {
    instructions: Vec<Node<Instruction>>,
  }
  pub node Instruction =
    | Word -> Node<Word>
    | Number -> Node<Number>
    ;
  pub node Word = {}
  pub node Number = {}
";

const COUNTING_MODEL: &str = "
  impl<'a> LifetimeModel -> () {
    where Program => {
      for child in node.data.instructions.iter_mut() {
        context.visit(child);
      }
      *context.data = context.n_words + context.n_numbers;
    },
    where Instruction => {
      match node.data.as_mut() {
        Instruction::Word(child) => context.visit(child),
        Instruction::Number(child) => context.visit(child),
      }
    },
    where Word => {
      context.n_words += 1;
    },
    where Number => {
      context.n_numbers += 1;
    },
  }
";

fn record<'a>(defs: &'a [Definition], kind: &str) -> &'a Definition {
    defs.iter()
        .find(|d| match d {
            Definition::Record { name, .. } | Definition::Union { name, .. } => name == kind,
            _ => false,
        })
        .unwrap()
}

fn attributes_of(defs: &[Definition], kind: &str) -> String {
    for d in defs {
        if let Definition::AttributesImpl { name, datatype } = d {
            if name == kind {
                return text(datatype);
            }
        }
    }
    panic!("no annotation association for {}", kind);
}

#[test]
fn expression_schema_lowers_to_definitions() {
    let defs = generate_tree(&lex(EXPR_TREE)).unwrap();
    assert_eq!(defs.len(), 9);
    match &defs[0] {
        Definition::Wrapper { location } => assert_eq!(text(location), "( )"),
        _ => panic!("wrapper first"),
    }
    match record(&defs, "Expression") {
        Definition::Union { cases, .. } => {
            let got: Vec<(String, String)> =
                cases.iter().map(|c| (c.name.clone(), text(&c.datatype))).collect();
            assert_eq!(
                got,
                vec![
                    ("BinOp".to_string(), "Node < BinaryOperation >".to_string()),
                    ("UnOp".to_string(), "Node < UnaryOperation >".to_string()),
                    ("Num".to_string(), "Node < Number >".to_string()),
                ]
            );
        },
        _ => panic!("Expression is a union"),
    }
    match record(&defs, "Number") {
        Definition::Record { members, .. } => {
            assert_eq!(members.len(), 1);
            assert_eq!(members[0].name, "value");
            assert_eq!(text(&members[0].datatype), "f64");
        },
        _ => panic!("Number is a record"),
    }
    let model = "impl Interpreter -> f64 {
        where Expression => {
          match node.data.as_mut() {
            Expression::BinOp(child_node) => context.visit(child_node),
            Expression::UnOp(child_node) => context.visit(child_node),
            Expression::Num(child_node) => context.visit(child_node),
          }
        },
        where Number => node.data.value,
      }";
    let dispatch = generate_model(&lex(model)).unwrap();
    assert_eq!(dispatch.len(), 4);
    match &dispatch[2] {
        Dispatch::ClauseImpl { pattern, body, output, .. } => {
            assert_eq!(text(pattern), "Number");
            assert_eq!(text(body), "node . data . value");
            assert_eq!(text(output), "f64");
        },
        _ => panic!("clause implementation"),
    }
}

fn type_args(names: &[ParamName]) -> String {
    let parts: Vec<String> = names
        .iter()
        .map(|p| if p.lifetime { format!("'{}", p.name) } else { p.name.clone() })
        .collect();
    format!("<{}>", parts.join(","))
}

fn check_counting_model(model_text: &str, context_name: &str, generics: &str, args: &str) {
    let defs = generate_tree(&lex(PROGRAM_TREE)).unwrap();
    assert_eq!(defs.len(), 9);
    match record(&defs, "Program") {
        Definition::Record { members, .. } => {
            assert_eq!(members.len(), 1);
            assert_eq!(members[0].name, "instructions");
            assert_eq!(text(&members[0].datatype), "Vec < Node < Instruction > >");
        },
        _ => panic!("Program is a record"),
    }
    match record(&defs, "Word") {
        Definition::Record { members, .. } => assert!(members.is_empty()),
        _ => panic!("Word is a record"),
    }
    let dispatch = generate_model(&lex(model_text)).unwrap();
    assert_eq!(dispatch.len(), 6);
    let patterns: Vec<String> = dispatch
        .iter()
        .filter_map(|d| match d {
            Dispatch::ClauseImpl { pattern, impl_generics, ty_generics, .. } => {
                assert_eq!(text(impl_generics), generics);
                assert_eq!(type_args(ty_generics), args);
                Some(text(pattern))
            },
            _ => None,
        })
        .collect();
    assert_eq!(patterns, vec!["Program", "Instruction", "Word", "Number"]);
    match &dispatch[5] {
        Dispatch::VisitorImpl { context, output, .. } => {
            assert_eq!(text(context), context_name);
            assert_eq!(text(output), "( )");
        },
        _ => panic!("visitor implementation last"),
    }
}

#[test]
fn counting_model_with_lifetime_lowers() {
    check_counting_model(COUNTING_MODEL, "LifetimeModel", "< ' a >", "<'a>");
}

#[test]
fn counting_model_with_type_parameter_lowers() {
    let model = COUNTING_MODEL.replace("impl<'a> LifetimeModel", "impl<T> GenericModel");
    check_counting_model(&model, "GenericModel", "< T >", "<T>");
}

#[test]
fn empty_record_is_accepted() {
    let tree = AbstractSyntaxTree::parse(&lex("location = u8 ; node X = {}")).unwrap();
    assert_eq!(tree.nodes.len(), 1);
    match &tree.nodes[0].data {
        NodeData::Struct(s) => assert!(s.members.is_empty()),
        NodeData::Enum(_) => panic!("record expected"),
    }
}

#[test]
fn zero_variants_is_a_syntax_error() {
    let toks = lex("location = u8 ; node X = ;");
    let err = AbstractSyntaxTree::parse(&toks).err().unwrap();
    assert_eq!(err, SyntaxError { pos: 7, expected: Expected::OpenBrace });
}

#[test]
fn annotation_type_defaults_to_unit() {
    let defs =
        generate_tree(&lex("location = u8 ; node A = {} pub node B where attrs: String = {}"))
            .unwrap();
    assert_eq!(defs.len(), 5);
    assert_eq!(attributes_of(&defs, "A"), "( )");
    assert_eq!(attributes_of(&defs, "B"), "String");
    match &defs[3] {
        Definition::Record { visibility, .. } => assert_eq!(text(visibility), "pub"),
        _ => panic!("record expected"),
    }
}

#[test]
fn reparse_gives_equal_schemas() {
    let toks = lex(EXPR_TREE);
    let a = AbstractSyntaxTree::parse(&toks).unwrap();
    let b = AbstractSyntaxTree::parse(&toks).unwrap();
    assert_eq!(a.nodes.len(), b.nodes.len());
    for (x, y) in a.nodes.iter().zip(b.nodes.iter()) {
        assert_eq!(x.name, y.name);
        assert_eq!(x.visibility, y.visibility);
    }
    assert_eq!(a.location.datatype, b.location.datatype);
}

#[test]
fn record_members_keep_order_and_types() {
    let defs = generate_tree(&lex(
        "location = (usize, usize) ; pub(crate) node P = { a: u8, b: Vec<(u8, u16)>, c: fn(u8) -> u8 }",
    ))
    .unwrap();
    match &defs[1] {
        Definition::Record { visibility, name, members } => {
            assert_eq!(text(visibility), "pub ( crate )");
            assert_eq!(name, "P");
            let got: Vec<(String, String)> =
                members.iter().map(|m| (m.name.clone(), text(&m.datatype))).collect();
            assert_eq!(
                got,
                vec![
                    ("a".to_string(), "u8".to_string()),
                    ("b".to_string(), "Vec < ( u8 , u16 ) >".to_string()),
                    ("c".to_string(), "fn ( u8 ) - > u8".to_string()),
                ]
            );
        },
        _ => panic!("record expected"),
    }
    match &defs[0] {
        Definition::Wrapper { location } => assert_eq!(text(location), "( usize , usize )"),
        _ => panic!("wrapper first"),
    }
}

#[test]
fn syntax_errors_name_position_and_construct() {
    let cases: Vec<(&str, usize, Expected)> = vec![
        ("position = u8 ;", 0, Expected::LocationKeyword),
        ("location u8 ;", 1, Expected::Equals),
        ("location = ;", 2, Expected::Type),
        ("location = u8", 3, Expected::Semicolon),
        ("location = u8 ; pub item X = {}", 5, Expected::NodeKeyword),
        ("location = u8 ; node = {}", 5, Expected::Ident),
        ("location = u8 ; node X where data : u8 = {}", 7, Expected::AttrsKeyword),
        ("location = u8 ; node X where attrs u8 = {}", 8, Expected::Colon),
        ("location = u8 ; node X where attrs : = {}", 9, Expected::Type),
        ("location = u8 ; node X {}", 6, Expected::Equals),
        ("location = u8 ; node X = { a u8 }", 9, Expected::Colon),
        ("location = u8 ; node X = { a : }", 10, Expected::Type),
        ("location = u8 ; node X = { a : u8", 11, Expected::Comma),
        ("location = u8 ; node X = | A Node<A> ;", 9, Expected::Arrow),
        ("location = u8 ; node X = | A -> ;", 11, Expected::Type),
        ("location = u8 ; node X = | A -> u8", 12, Expected::Bar),
        ("location = u8 ; pub(crate node X = {}", 5, Expected::NodeKeyword),
    ];
    for (src, pos, expected) in cases {
        let err = AbstractSyntaxTree::parse(&lex(src)).err();
        assert_eq!(err, Some(SyntaxError { pos, expected }), "{}", src);
    }
    let model_cases: Vec<(&str, usize, Expected)> = vec![
        ("for M -> () {}", 0, Expected::ImplKeyword),
        ("impl<T M -> () {}", 1, Expected::Generics),
        ("impl -> () {}", 1, Expected::Type),
        ("impl M () {}", 2, Expected::Arrow),
        ("impl M -> {}", 4, Expected::Type),
        ("impl M -> ()", 6, Expected::OpenBrace),
        ("impl M -> () { A => 1 }", 7, Expected::WhereKeyword),
        ("impl M -> () { where A 1 }", 9, Expected::FatArrow),
        ("impl M -> () { where A => }", 11, Expected::Expr),
        ("impl M -> () { where A => 1", 12, Expected::Comma),
        ("impl M -> () { where A => 1 } extra", 13, Expected::EndOfInput),
    ];
    for (src, pos, expected) in model_cases {
        let err = Model::parse(&lex(src)).err();
        assert_eq!(err, Some(SyntaxError { pos, expected }), "{}", src);
    }
}

#[test]
fn model_with_trailing_comma_and_without() {
    let a = Model::parse(&lex("impl M -> u8 { where A => 1, where B => { x } }")).unwrap();
    let b = Model::parse(&lex("impl M -> u8 { where A => 1, where B => { x }, }")).unwrap();
    assert_eq!(a.clauses.len(), 2);
    assert_eq!(b.clauses.len(), 2);
    assert_eq!(text(&a.clauses[1].body), "{ x }");
    assert!(a.generics.is_empty());
    assert_eq!(text(&a.context), "M");
    let empty = Model::parse(&lex("impl M -> u8 { }")).unwrap();
    assert!(empty.clauses.is_empty());
}

#[test]
fn generic_arguments_drop_bounds_and_defaults() {
    let g = lex("<'a, 'b: 'a, T: Clone + Iterator<Item = u8>, const N: usize, U = u8>");
    assert_eq!(type_args(&generic_args_of(&g)), "<'a,'b,T,N,U>");
    assert!(generic_args_of(&Vec::new()).is_empty());
    let model = Model::parse(&lex("impl<'a, T: Clone> M -> () { where A => 1 }")).unwrap();
    assert_eq!(text(&model.generics), "< ' a , T : Clone >");
}

#[test]
fn syntax_error_messages() {
    let e = SyntaxError { pos: 0, expected: Expected::LocationKeyword };
    assert_eq!(e.message(), "expected `location`");
    let e = SyntaxError { pos: 3, expected: Expected::EndOfInput };
    assert_eq!(e.message(), "unexpected token");
}

#[test]
fn clause_body_runs_to_the_clause_separator() {
    let (c, j) = Clause::parse(&lex("where K => f::<A, B>()"), 0).unwrap();
    assert_eq!(text(&c.pattern), "K");
    assert_eq!(text(&c.body), "f : : < A , B > ( )");
    assert_eq!(j, 14);
    let m = Model::parse(&lex("impl C -> O { where K => f::<A, B>(), where L => |a, b| a + b }")).unwrap();
    assert_eq!(m.clauses.len(), 2);
    assert_eq!(text(&m.clauses[0].body), "f : : < A , B > ( )");
    assert_eq!(text(&m.clauses[1].body), "| a , b | a + b");
}

#[test]
fn types_end_where_the_type_grammar_ends() {
    let err = AbstractSyntaxTree::parse(&lex("location = u8 ; node X = { a: u8 b: u8 }")).err();
    assert_eq!(err, Some(SyntaxError { pos: 11, expected: Expected::Comma }));
    let (f, j) = NodeDataStructField::parse(&lex("a : u8 b"), 0).unwrap();
    assert_eq!(text(&f.datatype), "u8");
    assert_eq!(j, 3);
    let (v, j) = NodeDataEnumVariant::parse(&lex("A -> u8 b"), 0).unwrap();
    assert_eq!(text(&v.datatype), "u8");
    assert_eq!(j, 4);
    let (a, j) = NodeAttributes::parse(&lex("where attrs : u8 b"), 0).unwrap();
    assert_eq!(text(&a.datatype), "u8");
    assert_eq!(j, 4);
    let (f, j) = NodeDataStructField::parse(&lex("a : HashMap<u8, u16> , b"), 0).unwrap();
    assert_eq!(text(&f.datatype), "HashMap < u8 , u16 >");
    assert_eq!(j, 8);
}

#[test]
fn union_needs_a_variant() {
    let err = NodeDataEnum::parse(&lex(";"), 0).err();
    assert_eq!(err, Some(SyntaxError { pos: 0, expected: Expected::Bar }));
    let (e, j) = NodeDataEnum::parse(&lex("| A -> u8 ;"), 0).unwrap();
    assert_eq!(e.variants.len(), 1);
    assert_eq!(j, 6);
}

#[test]
fn empty_invisible_group_is_no_visibility() {
    let mut toks = lex("location = u8 ;");
    toks.push(Tok::Open(Delim::Invisible));
    toks.push(Tok::Close(Delim::Invisible));
    toks.extend(lex("node X = {}"));
    let tree = AbstractSyntaxTree::parse(&toks).unwrap();
    assert_eq!(tree.nodes.len(), 1);
    assert!(tree.nodes[0].visibility.is_empty());
    assert_eq!(tree.nodes[0].name, "X");
}

#[test]
fn impl_generics_leave_out_defaults() {
    let g = lex("<'a, T: Iterator<Item = u8> = Foo, const N: usize = 3, U>");
    assert_eq!(
        text(&impl_generics_of(&g)),
        "< ' a , T : Iterator < Item = u8 > , const N : usize , U >"
    );
    assert!(impl_generics_of(&Vec::new()).is_empty());
    let dispatch = generate_model(&lex("impl<T = u8> M -> () { where A => 1 }")).unwrap();
    match &dispatch[1] {
        Dispatch::ClauseImpl { impl_generics, ty_generics, .. } => {
            assert_eq!(text(impl_generics), "< T >");
            assert_eq!(type_args(ty_generics), "<T>");
        },
        _ => panic!("clause implementation"),
    }
}
