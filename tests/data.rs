use rudf::model::data::{
    DataFactory, Literal, NamedOrBlankNode, QuadLike, Term, TripleLike, RDF_LANG_STRING,
    XSD_STRING,
};
use rudf::model::ids::{decimal_string, next_id, U64IDProvider};
use std::collections::hash_map::DefaultHasher;
use std::hash::{Hash, Hasher};

fn hash_of<T: Hash>(t: &T) -> u64 {
    let mut h = DefaultHasher::new();
    t.hash(&mut h);
    h.finish()
}

#[test]
fn quad_renders_with_and_without_graph() {
    let f = DataFactory::default();
    let q = f.quad(
        f.named_node("ex:s").into(),
        f.named_node("ex:p"),
        f.language_tagged_literal("hello", "en").into(),
        None,
    );
    assert_eq!(q.to_string(), "<ex:s> <ex:p> \"hello\"@en .");
    let q = f.quad(
        f.named_node("ex:s").into(),
        f.named_node("ex:p"),
        f.language_tagged_literal("hello", "en").into(),
        Some(f.named_node("ex:g").into()),
    );
    assert_eq!(q.to_string(), "<ex:s> <ex:p> \"hello\"@en <ex:g> .");
}

#[test]
fn typed_literal_renders_with_datatype() {
    let f = DataFactory::default();
    let l = f.typed_literal("42", f.named_node("xsd:integer"));
    assert_eq!(l.to_string(), "\"42\"^^<xsd:integer>");
    assert!(!l.is_plain());
    assert_eq!(l.language(), None);
    assert_eq!(l.datatype(), f.named_node("xsd:integer"));
    assert_eq!(l.value(), "42");
}

#[test]
fn simple_and_tagged_literals_are_plain() {
    let f = DataFactory::default();
    let s = f.simple_literal("abc");
    assert!(s.is_plain());
    assert_eq!(s.language(), None);
    assert_eq!(s.datatype().value(), XSD_STRING);
    assert_eq!(s.datatype().value(), "http://www.w3.org/2001/XMLSchema#string");
    assert_eq!(s.to_string(), "\"abc\"");
    let t = f.language_tagged_literal("chat", "fr");
    assert!(t.is_plain());
    assert_eq!(t.language(), Some("fr"));
    assert_eq!(t.datatype().value(), RDF_LANG_STRING);
    assert_eq!(
        t.datatype().value(),
        "http://www.w3.org/1999/02/22-rdf-syntax-ns#langString"
    );
    assert_eq!(t.value(), "chat");
}

#[test]
fn typed_literal_keeps_a_string_datatype() {
    let f = DataFactory::default();
    let l = f.typed_literal("x", f.named_node(XSD_STRING));
    assert!(!l.is_plain());
    assert_eq!(l.datatype().value(), XSD_STRING);
    assert_ne!(l, f.simple_literal("x"));
}

#[test]
fn named_nodes_compare_by_iri() {
    let f = DataFactory::default();
    assert_eq!(f.named_node("http://a"), f.named_node("http://a"));
    assert_ne!(f.named_node("http://a"), f.named_node("http://b"));
    assert_eq!(f.named_node("http://a").value(), "http://a");
    assert_eq!(f.named_node("").value(), "");
}

#[test]
fn blank_nodes_compare_by_id() {
    let f = DataFactory::default();
    assert_eq!(f.blank_node("b0"), f.blank_node("b0"));
    assert_ne!(f.blank_node("b0"), f.blank_node("b1"));
    assert_eq!(f.blank_node("b0").value(), "b0");
    assert_eq!(f.blank_node("b0").to_string(), "_:b0");
}

#[test]
fn fresh_factory_numbers_blank_nodes_from_one() {
    let f = DataFactory::default();
    let ids: Vec<String> = (0..12)
        .map(|_| f.new_blank_node().unwrap().value().to_string())
        .collect();
    let expected: Vec<String> = (1..=12).map(|i: u64| i.to_string()).collect();
    assert_eq!(ids, expected);
}

#[test]
fn cloned_factories_share_the_counter() {
    let f = DataFactory::default();
    let g = f.clone();
    assert_eq!(f.new_blank_node().unwrap().value(), "1");
    assert_eq!(g.new_blank_node().unwrap().value(), "2");
    assert_eq!(f.new_blank_node().unwrap().value(), "3");
    let other = DataFactory::default();
    assert_eq!(other.new_blank_node().unwrap().value(), "1");
}

#[test]
fn provider_counts_up_from_one() {
    let p = U64IDProvider::default();
    let shared = p.clone();
    assert_eq!(p.next(), Some(1));
    assert_eq!(shared.next(), Some(2));
    assert_eq!(p.next(), Some(3));
}

#[test]
fn counter_step_stops_at_the_largest_id() {
    assert_eq!(next_id(0), Some(1));
    assert_eq!(next_id(41), Some(42));
    assert_eq!(next_id(u64::MAX - 1), Some(u64::MAX));
    assert_eq!(next_id(u64::MAX), None);
}

#[test]
fn identifiers_are_written_in_decimal() {
    assert_eq!(decimal_string(0), "0");
    assert_eq!(decimal_string(7), "7");
    assert_eq!(decimal_string(10), "10");
    assert_eq!(decimal_string(1234567890), "1234567890");
    assert_eq!(decimal_string(u64::MAX), "18446744073709551615");
    let f = DataFactory::default();
    assert_eq!(f.numbered_blank_node(305).value(), "305");
    assert_eq!(f.numbered_blank_node(305).to_string(), "_:305");
}

#[test]
fn named_node_renders_the_same_through_term() {
    let f = DataFactory::default();
    let n = f.named_node("http://example.com/a");
    let direct = n.to_string();
    let node: NamedOrBlankNode = n.into();
    assert_eq!(node.to_string(), direct);
    let term: Term = node.into();
    assert_eq!(term.to_string(), direct);
    assert_eq!(direct, "<http://example.com/a>");
}

#[test]
fn conversions_keep_the_value() {
    let f = DataFactory::default();
    let b: NamedOrBlankNode = f.blank_node("x").into();
    assert_eq!(b, NamedOrBlankNode::BlankNode(f.blank_node("x")));
    assert_eq!(b.value(), "x");
    let t: Term = b.into();
    assert_eq!(t, Term::BlankNode(f.blank_node("x")));
    assert_eq!(t.to_string(), "_:x");
    let l: Term = f.simple_literal("v").into();
    assert_eq!(l.value(), "v");
    assert_eq!(l, Term::Literal(Literal::SimpleLiteral("v".to_string())));
    let n: Term = f.named_node("i").into();
    assert_eq!(n.value(), "i");
    assert_ne!(n, Term::BlankNode(f.blank_node("i")));
}

#[test]
fn triples_from_equal_terms_are_equal_and_hash_alike() {
    let f = DataFactory::default();
    let o = f.simple_literal("o");
    let p = f.named_node("ex:p");
    let s = f.named_node("ex:s");
    let t1 = f.triple(s.into(), p.into(), o.into());
    let t2 = f.triple(
        f.named_node("ex:s").into(),
        f.named_node("ex:p"),
        f.simple_literal("o").into(),
    );
    assert_eq!(t1, t2);
    assert_eq!(hash_of(&t1), hash_of(&t2));
    let t3 = f.triple(
        f.named_node("ex:s").into(),
        f.named_node("ex:p"),
        f.simple_literal("other").into(),
    );
    assert_ne!(t1, t3);
}

#[test]
fn triple_accessors_and_rendering() {
    let f = DataFactory::default();
    let t = f.triple(
        f.blank_node("a").into(),
        f.named_node("ex:p"),
        f.named_node("ex:o").into(),
    );
    assert_eq!(t.to_string(), "_:a <ex:p> <ex:o> .");
    assert_eq!(*t.subject(), NamedOrBlankNode::BlankNode(f.blank_node("a")));
    assert_eq!(*t.predicate(), f.named_node("ex:p"));
    assert_eq!(*t.object(), Term::NamedNode(f.named_node("ex:o")));
    assert_eq!(t.clone().subject_owned().value(), "a");
    assert_eq!(t.clone().predicate_owned().value(), "ex:p");
    assert_eq!(t.object_owned().value(), "ex:o");
}

#[test]
fn quad_accessors_and_equality() {
    let f = DataFactory::default();
    let q = f.quad(
        f.named_node("ex:s").into(),
        f.named_node("ex:p"),
        f.simple_literal("v").into(),
        Some(f.blank_node("g").into()),
    );
    assert_eq!(q.to_string(), "<ex:s> <ex:p> \"v\" _:g .");
    assert_eq!(q.subject().value(), "ex:s");
    assert_eq!(q.predicate().value(), "ex:p");
    assert_eq!(q.object().value(), "v");
    assert_eq!(*q.graph_name(), Some(NamedOrBlankNode::BlankNode(f.blank_node("g"))));
    let in_default = f.quad(
        f.named_node("ex:s").into(),
        f.named_node("ex:p"),
        f.simple_literal("v").into(),
        None,
    );
    assert_ne!(q, in_default);
    assert_eq!(in_default.clone().graph_name_owned(), None);
    assert_eq!(q.clone(), q);
    assert_eq!(hash_of(&q.clone()), hash_of(&q));
    assert_eq!(q.clone().subject_owned().value(), "ex:s");
    assert_eq!(q.clone().predicate_owned().value(), "ex:p");
    assert_eq!(q.clone().object_owned().value(), "v");
    assert_eq!(q.graph_name_owned().unwrap().value(), "g");
}
