//! Data structures for RDF 1.1 terms and statements, in the shape of RDFjs.
use crate::model::ids::{decimal, decimal_string, U64IDProvider};
use vstd::prelude::*;

verus! {

/// An RDF IRI.
#[derive(Eq, Debug, Clone, Hash)]
pub struct NamedNode {
    iri: String,
}

impl View for NamedNode {
    type V = Seq<char>;

    closed spec fn view(&self) -> Seq<char> {
        self.iri@
    }
}

impl NamedNode {
    /// The IRI, verbatim.
    pub fn value(&self) -> (r: &str)
        ensures
            r@ == self@,
    {
        self.iri.as_str()
    }
}

impl PartialEq for NamedNode {
    fn eq(&self, other: &NamedNode) -> (r: bool)
        ensures
            r == (self@ == other@),
    {
        self.iri == other.iri
    }
}

impl vstd::std_specs::cmp::PartialEqSpecImpl for NamedNode {
    open spec fn obeys_eq_spec() -> bool {
        true
    }

    open spec fn eq_spec(&self, other: &NamedNode) -> bool {
        self@ == other@
    }
}


/// The IRI of `xsd:string`, the datatype of simple literals.
pub const XSD_STRING: &'static str = "http://www.w3.org/2001/XMLSchema#string";

/// The IRI of `rdf:langString`, the datatype of language-tagged strings.
pub const RDF_LANG_STRING: &'static str = "http://www.w3.org/1999/02/22-rdf-syntax-ns#langString";

/// `<iri>`: how an IRI is written.
pub open spec fn iri_text(iri: Seq<char>) -> Seq<char> {
    seq!['<'] + iri + seq!['>']
}

/// `_:id`: how a blank node is written.
pub open spec fn blank_text(id: Seq<char>) -> Seq<char> {
    seq!['_', ':'] + id
}

/// A lexical form between double quotes.
pub open spec fn quoted(value: Seq<char>) -> Seq<char> {
    seq!['"'] + value + seq!['"']
}

/// Appends `t` to `out`.
fn push_text(out: &mut String, t: &str)
    ensures
        final(out)@ == old(out)@ + t@,
{
    out.append(t);
}

/// Starts a new string with `t`.
fn text_of(t: &str) -> (r: String)
    ensures
        r@ == t@,
{
    String::from_str(t)
}

impl NamedNode {
    /// Renders the IRI as `<iri>`.
    pub fn to_string(&self) -> (r: String)
        ensures
            r@ == iri_text(self@),
    {
        let mut out = text_of("<");
        push_text(&mut out, self.iri.as_str());
        push_text(&mut out, ">");
        proof {
            reveal_strlit("<");
            reveal_strlit(">");
            assert(out@ =~= iri_text(self@));
        }
        out
    }

    /// A copy of this IRI.
    fn copied(&self) -> (r: NamedNode)
        ensures
            r@ == self@,
    {
        NamedNode { iri: self.iri.clone() }
    }
}

/// An RDF blank node.
#[derive(Eq, Debug, Clone, Hash)]
pub struct BlankNode {
    id: String,
}

impl View for BlankNode {
    type V = Seq<char>;

    closed spec fn view(&self) -> Seq<char> {
        self.id@
    }
}

impl BlankNode {
    /// The local identifier, verbatim.
    pub fn value(&self) -> (r: &str)
        ensures
            r@ == self@,
    {
        self.id.as_str()
    }

    /// Renders the blank node as `_:id`.
    pub fn to_string(&self) -> (r: String)
        ensures
            r@ == blank_text(self@),
    {
        let mut out = text_of("_:");
        push_text(&mut out, self.id.as_str());
        proof {
            reveal_strlit("_:");
            assert(out@ =~= blank_text(self@));
        }
        out
    }
}

impl PartialEq for BlankNode {
    fn eq(&self, other: &BlankNode) -> (r: bool)
        ensures
            r == (self@ == other@),
    {
        self.id == other.id
    }
}

impl vstd::std_specs::cmp::PartialEqSpecImpl for BlankNode {
    open spec fn obeys_eq_spec() -> bool {
        true
    }

    open spec fn eq_spec(&self, other: &BlankNode) -> bool {
        self@ == other@
    }
}

/// What a literal is: its variant, lexical form, and language tag or datatype IRI.
pub enum LiteralModel {
    Simple { value: Seq<char> },
    LanguageTagged { value: Seq<char>, language: Seq<char> },
    Typed { value: Seq<char>, datatype: Seq<char> },
}

impl LiteralModel {
    pub open spec fn value(self) -> Seq<char> {
        match self {
            LiteralModel::Simple { value } => value,
            LiteralModel::LanguageTagged { value, .. } => value,
            LiteralModel::Typed { value, .. } => value,
        }
    }

    /// The datatype IRI: fixed for the two plain variants, stored for typed literals.
    pub open spec fn datatype(self) -> Seq<char> {
        match self {
            LiteralModel::Simple { .. } => XSD_STRING@,
            LiteralModel::LanguageTagged { .. } => RDF_LANG_STRING@,
            LiteralModel::Typed { datatype, .. } => datatype,
        }
    }

    /// `"value"`, `"value"@lang` or `"value"^^<datatype>`.
    pub open spec fn text(self) -> Seq<char> {
        match self {
            LiteralModel::Simple { value } => quoted(value),
            LiteralModel::LanguageTagged { value, language } => quoted(value) + seq!['@']
                + language,
            LiteralModel::Typed { value, datatype } => quoted(value) + seq!['^', '^'] + iri_text(
                datatype,
            ),
        }
    }
}

/// An RDF literal.
#[derive(Eq, Debug, Clone, Hash)]
pub enum Literal {
    SimpleLiteral(String),
    LanguageTaggedString { value: String, language: String },
    TypedLiteral { value: String, datatype: NamedNode },
}

impl View for Literal {
    type V = LiteralModel;

    open spec fn view(&self) -> LiteralModel {
        match self {
            Literal::SimpleLiteral(value) => LiteralModel::Simple { value: value@ },
            Literal::LanguageTaggedString { value, language } => LiteralModel::LanguageTagged {
                value: value@,
                language: language@,
            },
            Literal::TypedLiteral { value, datatype } => LiteralModel::Typed {
                value: value@,
                datatype: datatype@,
            },
        }
    }
}

impl Literal {
    /// The lexical form.
    pub fn value(&self) -> (r: &str)
        ensures
            r@ == self@.value(),
    {
        match self {
            Literal::SimpleLiteral(value) => value.as_str(),
            Literal::LanguageTaggedString { value, .. } => value.as_str(),
            Literal::TypedLiteral { value, .. } => value.as_str(),
        }
    }

    /// The language tag of a language-tagged string; `None` for the other variants.
    pub fn language(&self) -> (r: Option<&str>)
        ensures
            r matches Some(l) ==> self@ matches LiteralModel::LanguageTagged { language, .. }
                && l@ == language,
            r is None ==> !(self@ is LanguageTagged),
    {
        match self {
            Literal::LanguageTaggedString { language, .. } => Some(language.as_str()),
            _ => None,
        }
    }

    /// The datatype IRI: `xsd:string` for simple literals, `rdf:langString` for
    /// language-tagged strings, the stored one for typed literals.
    pub fn datatype(&self) -> (r: NamedNode)
        ensures
            r@ == self@.datatype(),
    {
        match self {
            Literal::SimpleLiteral(_) => NamedNode { iri: text_of(XSD_STRING) },
            Literal::LanguageTaggedString { .. } => NamedNode { iri: text_of(RDF_LANG_STRING) },
            Literal::TypedLiteral { datatype, .. } => datatype.copied(),
        }
    }

    /// Whether this is a simple literal or a language-tagged string.
    pub fn is_plain(&self) -> (r: bool)
        ensures
            r == !(self@ is Typed),
    {
        match self {
            Literal::SimpleLiteral(_) => true,
            Literal::LanguageTaggedString { .. } => true,
            _ => false,
        }
    }

    /// Renders the literal as `"value"`, `"value"@lang` or `"value"^^<datatype>`.
    pub fn to_string(&self) -> (r: String)
        ensures
            r@ == self@.text(),
    {
        let mut out = text_of("\"");
        push_text(&mut out, self.value());
        push_text(&mut out, "\"");
        proof {
            reveal_strlit("\"");
        }
        if self.is_plain() {
            match self.language() {
                Some(lang) => {
                    push_text(&mut out, "@");
                    push_text(&mut out, lang);
                    proof {
                        reveal_strlit("@");
                    }
                },
                None => {},
            }
        } else {
            push_text(&mut out, "^^");
            let datatype = self.datatype().to_string();
            push_text(&mut out, datatype.as_str());
            proof {
                reveal_strlit("^^");
            }
        }
        assert(out@ =~= self@.text());
        out
    }
}

impl PartialEq for Literal {
    fn eq(&self, other: &Literal) -> (r: bool)
        ensures
            r == (self@ == other@),
    {
        match (self, other) {
            (Literal::SimpleLiteral(a), Literal::SimpleLiteral(b)) => *a == *b,
            (
                Literal::LanguageTaggedString { value: a, language: la },
                Literal::LanguageTaggedString { value: b, language: lb },
            ) => *a == *b && *la == *lb,
            (
                Literal::TypedLiteral { value: a, datatype: da },
                Literal::TypedLiteral { value: b, datatype: db },
            ) => *a == *b && *da == *db,
            _ => false,
        }
    }
}

impl vstd::std_specs::cmp::PartialEqSpecImpl for Literal {
    open spec fn obeys_eq_spec() -> bool {
        true
    }

    open spec fn eq_spec(&self, other: &Literal) -> bool {
        self@ == other@
    }
}

/// What a term is: an IRI, a blank node identifier or a literal.
pub enum TermModel {
    Named(Seq<char>),
    Blank(Seq<char>),
    Literal(LiteralModel),
}

impl TermModel {
    /// The IRI, the blank node identifier or the lexical form.
    pub open spec fn value(self) -> Seq<char> {
        match self {
            TermModel::Named(iri) => iri,
            TermModel::Blank(id) => id,
            TermModel::Literal(l) => l.value(),
        }
    }

    /// How the term is written: `<iri>`, `_:id` or the literal's form.
    pub open spec fn text(self) -> Seq<char> {
        match self {
            TermModel::Named(iri) => iri_text(iri),
            TermModel::Blank(id) => blank_text(id),
            TermModel::Literal(l) => l.text(),
        }
    }
}

/// The union of IRIs and blank nodes: what can be a subject or a graph name.
#[derive(Eq, Debug, Clone, Hash)]
pub enum NamedOrBlankNode {
    NamedNode(NamedNode),
    BlankNode(BlankNode),
}

impl View for NamedOrBlankNode {
    type V = TermModel;

    open spec fn view(&self) -> TermModel {
        match self {
            NamedOrBlankNode::NamedNode(node) => TermModel::Named(node@),
            NamedOrBlankNode::BlankNode(node) => TermModel::Blank(node@),
        }
    }
}

impl NamedOrBlankNode {
    /// The IRI or the blank node identifier.
    pub fn value(&self) -> (r: &str)
        ensures
            r@ == self@.value(),
    {
        match self {
            NamedOrBlankNode::NamedNode(node) => node.value(),
            NamedOrBlankNode::BlankNode(node) => node.value(),
        }
    }

    /// Renders the node as `<iri>` or `_:id`.
    pub fn to_string(&self) -> (r: String)
        ensures
            r@ == self@.text(),
    {
        match self {
            NamedOrBlankNode::NamedNode(node) => node.to_string(),
            NamedOrBlankNode::BlankNode(node) => node.to_string(),
        }
    }
}

impl PartialEq for NamedOrBlankNode {
    fn eq(&self, other: &NamedOrBlankNode) -> (r: bool)
        ensures
            r == (self@ == other@),
    {
        match (self, other) {
            (NamedOrBlankNode::NamedNode(a), NamedOrBlankNode::NamedNode(b)) => *a == *b,
            (NamedOrBlankNode::BlankNode(a), NamedOrBlankNode::BlankNode(b)) => *a == *b,
            _ => false,
        }
    }
}

impl vstd::std_specs::cmp::PartialEqSpecImpl for NamedOrBlankNode {
    open spec fn obeys_eq_spec() -> bool {
        true
    }

    open spec fn eq_spec(&self, other: &NamedOrBlankNode) -> bool {
        self@ == other@
    }
}

impl From<NamedNode> for NamedOrBlankNode {
    fn from(node: NamedNode) -> (r: NamedOrBlankNode) {
        NamedOrBlankNode::NamedNode(node)
    }
}

impl vstd::std_specs::convert::FromSpecImpl<NamedNode> for NamedOrBlankNode {
    open spec fn obeys_from_spec() -> bool {
        true
    }

    open spec fn from_spec(node: NamedNode) -> NamedOrBlankNode {
        NamedOrBlankNode::NamedNode(node)
    }
}

impl From<BlankNode> for NamedOrBlankNode {
    fn from(node: BlankNode) -> (r: NamedOrBlankNode) {
        NamedOrBlankNode::BlankNode(node)
    }
}

impl vstd::std_specs::convert::FromSpecImpl<BlankNode> for NamedOrBlankNode {
    open spec fn obeys_from_spec() -> bool {
        true
    }

    open spec fn from_spec(node: BlankNode) -> NamedOrBlankNode {
        NamedOrBlankNode::BlankNode(node)
    }
}

/// An RDF term: the union of IRIs, blank nodes and literals.
#[derive(Eq, Debug, Clone, Hash)]
pub enum Term {
    NamedNode(NamedNode),
    BlankNode(BlankNode),
    Literal(Literal),
}

impl View for Term {
    type V = TermModel;

    open spec fn view(&self) -> TermModel {
        match self {
            Term::NamedNode(node) => TermModel::Named(node@),
            Term::BlankNode(node) => TermModel::Blank(node@),
            Term::Literal(literal) => TermModel::Literal(literal@),
        }
    }
}

impl Term {
    /// The IRI, the blank node identifier or the lexical form.
    pub fn value(&self) -> (r: &str)
        ensures
            r@ == self@.value(),
    {
        match self {
            Term::NamedNode(node) => node.value(),
            Term::BlankNode(node) => node.value(),
            Term::Literal(literal) => literal.value(),
        }
    }

    /// Renders the term as `<iri>`, `_:id` or the literal's form.
    pub fn to_string(&self) -> (r: String)
        ensures
            r@ == self@.text(),
    {
        match self {
            Term::NamedNode(node) => node.to_string(),
            Term::BlankNode(node) => node.to_string(),
            Term::Literal(literal) => literal.to_string(),
        }
    }
}

impl PartialEq for Term {
    fn eq(&self, other: &Term) -> (r: bool)
        ensures
            r == (self@ == other@),
    {
        match (self, other) {
            (Term::NamedNode(a), Term::NamedNode(b)) => *a == *b,
            (Term::BlankNode(a), Term::BlankNode(b)) => *a == *b,
            (Term::Literal(a), Term::Literal(b)) => *a == *b,
            _ => false,
        }
    }
}

impl vstd::std_specs::cmp::PartialEqSpecImpl for Term {
    open spec fn obeys_eq_spec() -> bool {
        true
    }

    open spec fn eq_spec(&self, other: &Term) -> bool {
        self@ == other@
    }
}

impl From<NamedNode> for Term {
    fn from(node: NamedNode) -> (r: Term) {
        Term::NamedNode(node)
    }
}

impl vstd::std_specs::convert::FromSpecImpl<NamedNode> for Term {
    open spec fn obeys_from_spec() -> bool {
        true
    }

    open spec fn from_spec(node: NamedNode) -> Term {
        Term::NamedNode(node)
    }
}

impl From<BlankNode> for Term {
    fn from(node: BlankNode) -> (r: Term) {
        Term::BlankNode(node)
    }
}

impl vstd::std_specs::convert::FromSpecImpl<BlankNode> for Term {
    open spec fn obeys_from_spec() -> bool {
        true
    }

    open spec fn from_spec(node: BlankNode) -> Term {
        Term::BlankNode(node)
    }
}

impl From<Literal> for Term {
    fn from(literal: Literal) -> (r: Term) {
        Term::Literal(literal)
    }
}

impl vstd::std_specs::convert::FromSpecImpl<Literal> for Term {
    open spec fn obeys_from_spec() -> bool {
        true
    }

    open spec fn from_spec(literal: Literal) -> Term {
        Term::Literal(literal)
    }
}

impl From<NamedOrBlankNode> for Term {
    fn from(resource: NamedOrBlankNode) -> (r: Term) {
        match resource {
            NamedOrBlankNode::NamedNode(node) => Term::NamedNode(node),
            NamedOrBlankNode::BlankNode(node) => Term::BlankNode(node),
        }
    }
}

impl vstd::std_specs::convert::FromSpecImpl<NamedOrBlankNode> for Term {
    open spec fn obeys_from_spec() -> bool {
        true
    }

    open spec fn from_spec(resource: NamedOrBlankNode) -> Term {
        match resource {
            NamedOrBlankNode::NamedNode(node) => Term::NamedNode(node),
            NamedOrBlankNode::BlankNode(node) => Term::BlankNode(node),
        }
    }
}

/// What a triple is: its subject, predicate IRI and object.
pub struct TripleModel {
    pub subject: TermModel,
    pub predicate: Seq<char>,
    pub object: TermModel,
}

impl TripleModel {
    /// `subject predicate object`, each as the term is written.
    pub open spec fn terms_text(self) -> Seq<char> {
        self.subject.text() + seq![' '] + iri_text(self.predicate) + seq![' '] + self.object.text()
    }

    /// `subject predicate object .`
    pub open spec fn text(self) -> Seq<char> {
        self.terms_text() + seq![' ', '.']
    }
}

/// What a quad is: a triple and the name of its graph, `None` for the default graph.
pub struct QuadModel {
    pub triple: TripleModel,
    pub graph_name: Option<TermModel>,
}

impl QuadModel {
    /// `subject predicate object .`, with the graph name before the period when there is one.
    pub open spec fn text(self) -> Seq<char> {
        match self.graph_name {
            Some(g) => self.triple.terms_text() + seq![' '] + g.text() + seq![' ', '.'],
            None => self.triple.text(),
        }
    }
}

/// The model of an optional graph name.
pub open spec fn graph_model(g: Option<NamedOrBlankNode>) -> Option<TermModel> {
    match g {
        Some(n) => Some(n@),
        None => None,
    }
}

/// The accessors of containers that look like RDF triples.
pub trait TripleLike: Sized {
    /// The triple that this container holds.
    spec fn triple_model(&self) -> TripleModel;

    /// The subject of this triple.
    fn subject(&self) -> (r: &NamedOrBlankNode)
        ensures
            r@ == self.triple_model().subject,
    ;

    /// The subject of this triple, taken out of it.
    fn subject_owned(self) -> (r: NamedOrBlankNode)
        ensures
            r@ == self.triple_model().subject,
    ;

    /// The predicate of this triple.
    fn predicate(&self) -> (r: &NamedNode)
        ensures
            r@ == self.triple_model().predicate,
    ;

    /// The predicate of this triple, taken out of it.
    fn predicate_owned(self) -> (r: NamedNode)
        ensures
            r@ == self.triple_model().predicate,
    ;

    /// The object of this triple.
    fn object(&self) -> (r: &Term)
        ensures
            r@ == self.triple_model().object,
    ;

    /// The object of this triple, taken out of it.
    fn object_owned(self) -> (r: Term)
        ensures
            r@ == self.triple_model().object,
    ;
}

/// The accessors of triples that stand in an RDF dataset.
pub trait QuadLike: TripleLike {
    /// The name of the graph that holds the triple; `None` for the default graph.
    spec fn graph_name_model(&self) -> Option<TermModel>;

    /// The name of the graph that holds the triple, or `None` for the default graph.
    fn graph_name(&self) -> (r: &Option<NamedOrBlankNode>)
        ensures
            graph_model(*r) == self.graph_name_model(),
    ;

    /// The name of the graph that holds the triple, taken out of it.
    fn graph_name_owned(self) -> (r: Option<NamedOrBlankNode>)
        ensures
            graph_model(r) == self.graph_name_model(),
    ;
}

/// An RDF triple.
#[derive(Eq, Debug, Clone, Hash)]
pub struct Triple {
    subject: NamedOrBlankNode,
    predicate: NamedNode,
    object: Term,
}

impl View for Triple {
    type V = TripleModel;

    closed spec fn view(&self) -> TripleModel {
        TripleModel { subject: self.subject@, predicate: self.predicate@, object: self.object@ }
    }
}

/// `subject predicate object`, as the terms are written.
fn terms_to_string(subject: &NamedOrBlankNode, predicate: &NamedNode, object: &Term) -> (r: String)
    ensures
        r@ == (TripleModel { subject: subject@, predicate: predicate@, object: object@ }).terms_text(),
{
    let mut out = subject.to_string();
    push_text(&mut out, " ");
    let p = predicate.to_string();
    push_text(&mut out, p.as_str());
    push_text(&mut out, " ");
    let o = object.to_string();
    push_text(&mut out, o.as_str());
    proof {
        reveal_strlit(" ");
    }
    assert(out@ =~= (TripleModel { subject: subject@, predicate: predicate@, object: object@ }).terms_text());
    out
}

impl Triple {
    /// Renders the triple as `subject predicate object .`.
    pub fn to_string(&self) -> (r: String)
        ensures
            r@ == self@.text(),
    {
        let mut out = terms_to_string(&self.subject, &self.predicate, &self.object);
        push_text(&mut out, " .");
        proof {
            reveal_strlit(" .");
        }
        assert(out@ =~= self@.text());
        out
    }
}

impl PartialEq for Triple {
    fn eq(&self, other: &Triple) -> (r: bool)
        ensures
            r == (self@ == other@),
    {
        self.subject == other.subject && self.predicate == other.predicate && self.object
            == other.object
    }
}

impl vstd::std_specs::cmp::PartialEqSpecImpl for Triple {
    open spec fn obeys_eq_spec() -> bool {
        true
    }

    open spec fn eq_spec(&self, other: &Triple) -> bool {
        self@ == other@
    }
}

impl TripleLike for Triple {
    open spec fn triple_model(&self) -> TripleModel {
        self@
    }

    fn subject(&self) -> (r: &NamedOrBlankNode) {
        &self.subject
    }

    fn subject_owned(self) -> (r: NamedOrBlankNode) {
        self.subject
    }

    fn predicate(&self) -> (r: &NamedNode) {
        &self.predicate
    }

    fn predicate_owned(self) -> (r: NamedNode) {
        self.predicate
    }

    fn object(&self) -> (r: &Term) {
        &self.object
    }

    fn object_owned(self) -> (r: Term) {
        self.object
    }
}

/// An RDF triple in an RDF dataset.
#[derive(Eq, Debug, Clone, Hash)]
pub struct Quad {
    subject: NamedOrBlankNode,
    predicate: NamedNode,
    object: Term,
    graph_name: Option<NamedOrBlankNode>,
}

impl View for Quad {
    type V = QuadModel;

    closed spec fn view(&self) -> QuadModel {
        QuadModel {
            triple: TripleModel {
                subject: self.subject@,
                predicate: self.predicate@,
                object: self.object@,
            },
            graph_name: graph_model(self.graph_name),
        }
    }
}

impl Quad {
    /// Renders the quad as `subject predicate object .`, with the graph name
    /// before the period when there is one.
    pub fn to_string(&self) -> (r: String)
        ensures
            r@ == self@.text(),
    {
        let mut out = terms_to_string(&self.subject, &self.predicate, &self.object);
        match &self.graph_name {
            Some(graph_name) => {
                push_text(&mut out, " ");
                let g = graph_name.to_string();
                push_text(&mut out, g.as_str());
                proof {
                    reveal_strlit(" ");
                }
            },
            None => {},
        }
        push_text(&mut out, " .");
        proof {
            reveal_strlit(" .");
        }
        assert(out@ =~= self@.text());
        out
    }
}

impl PartialEq for Quad {
    fn eq(&self, other: &Quad) -> (r: bool)
        ensures
            r == (self@ == other@),
    {
        let same_graph = match (&self.graph_name, &other.graph_name) {
            (Some(a), Some(b)) => *a == *b,
            (None, None) => true,
            _ => false,
        };
        self.subject == other.subject && self.predicate == other.predicate && self.object
            == other.object && same_graph
    }
}

impl vstd::std_specs::cmp::PartialEqSpecImpl for Quad {
    open spec fn obeys_eq_spec() -> bool {
        true
    }

    open spec fn eq_spec(&self, other: &Quad) -> bool {
        self@ == other@
    }
}

impl TripleLike for Quad {
    open spec fn triple_model(&self) -> TripleModel {
        self@.triple
    }

    fn subject(&self) -> (r: &NamedOrBlankNode) {
        &self.subject
    }

    fn subject_owned(self) -> (r: NamedOrBlankNode) {
        self.subject
    }

    fn predicate(&self) -> (r: &NamedNode) {
        &self.predicate
    }

    fn predicate_owned(self) -> (r: NamedNode) {
        self.predicate
    }

    fn object(&self) -> (r: &Term) {
        &self.object
    }

    fn object_owned(self) -> (r: Term) {
        self.object
    }
}

impl QuadLike for Quad {
    open spec fn graph_name_model(&self) -> Option<TermModel> {
        self@.graph_name
    }

    fn graph_name(&self) -> (r: &Option<NamedOrBlankNode>) {
        &self.graph_name
    }

    fn graph_name_owned(self) -> (r: Option<NamedOrBlankNode>) {
        self.graph_name
    }
}

/// Builds the terms and statements of RDF. Clones share one blank node counter.
#[derive(Debug, Clone)]
pub struct DataFactory {
    blank_node_id_provider: U64IDProvider,
}

impl Default for DataFactory {
    /// A factory with a counter of its own, which no other factory shares.
    fn default() -> (r: DataFactory) {
        DataFactory { blank_node_id_provider: U64IDProvider::default() }
    }
}

impl DataFactory {
    /// Builds an IRI.
    pub fn named_node(&self, iri: &str) -> (r: NamedNode)
        ensures
            r@ == iri@,
    {
        NamedNode { iri: text_of(iri) }
    }

    /// Builds a blank node with a known identifier.
    pub fn blank_node(&self, id: &str) -> (r: BlankNode)
        ensures
            r@ == id@,
    {
        BlankNode { id: text_of(id) }
    }

    /// Builds the blank node whose identifier is `id` in decimal.
    pub fn numbered_blank_node(&self, id: u64) -> (r: BlankNode)
        ensures
            r@ == decimal(id as nat),
    {
        BlankNode { id: decimal_string(id) }
    }

    /// Builds a blank node with a fresh identifier: the next value of the
    /// shared counter, in decimal. `None` once the counter is spent.
    pub fn new_blank_node(&self) -> (r: Option<BlankNode>)
        ensures
            r matches Some(b) ==> exists|id: u64| id >= 1 && b@ == decimal(id as nat),
    {
        match self.blank_node_id_provider.next() {
            Some(id) => Some(self.numbered_blank_node(id)),
            None => None,
        }
    }

    /// Builds a simple literal.
    pub fn simple_literal(&self, value: &str) -> (r: Literal)
        ensures
            r@ == (LiteralModel::Simple { value: value@ }),
    {
        Literal::SimpleLiteral(text_of(value))
    }

    /// Builds a literal with a datatype.
    pub fn typed_literal(&self, value: &str, datatype: NamedNode) -> (r: Literal)
        ensures
            r@ == (LiteralModel::Typed { value: value@, datatype: datatype@ }),
    {
        Literal::TypedLiteral { value: text_of(value), datatype }
    }

    /// Builds a language-tagged string.
    pub fn language_tagged_literal(&self, value: &str, language: &str) -> (r: Literal)
        ensures
            r@ == (LiteralModel::LanguageTagged { value: value@, language: language@ }),
    {
        Literal::LanguageTaggedString { value: text_of(value), language: text_of(language) }
    }

    /// Builds a triple.
    pub fn triple(&self, subject: NamedOrBlankNode, predicate: NamedNode, object: Term) -> (r:
        Triple)
        ensures
            r@ == (TripleModel { subject: subject@, predicate: predicate@, object: object@ }),
    {
        Triple { subject, predicate, object }
    }

    /// Builds a triple in a graph of a dataset; `None` for the default graph.
    pub fn quad(
        &self,
        subject: NamedOrBlankNode,
        predicate: NamedNode,
        object: Term,
        graph_name: Option<NamedOrBlankNode>,
    ) -> (r: Quad)
        ensures
            r@ == (QuadModel {
                triple: TripleModel { subject: subject@, predicate: predicate@, object: object@ },
                graph_name: graph_model(graph_name),
            }),
    {
        Quad { subject, predicate, object, graph_name }
    }
}

} // verus!
