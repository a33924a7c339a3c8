//! Facts that hold across the functions of the data model.
use crate::model::data::{
    iri_text, LiteralModel, Literal, NamedNode, NamedOrBlankNode, Term, Triple, TripleModel,
    RDF_LANG_STRING, XSD_STRING,
};
use crate::model::ids::successor;
use vstd::prelude::*;
use vstd::std_specs::cmp::PartialEqSpec;
use vstd::std_specs::convert::FromSpec;

verus! {

/// A literal is plain exactly when it has a language tag or is simple. Its
/// datatype is `xsd:string` when it is simple, `rdf:langString` when it is
/// language-tagged, and the stored datatype when it is typed.
pub proof fn law_plain_literals(l: Literal)
    ensures
        !(l@ is Typed) <==> (l@ is LanguageTagged || l@ is Simple),
        l@ is Simple ==> l@.datatype() == XSD_STRING@,
        l@ is LanguageTagged ==> l@.datatype() == RDF_LANG_STRING@,
        l@ matches LiteralModel::Typed { datatype, .. } ==> l@.datatype() == datatype,
{
}

/// Two IRIs are equal exactly when their strings are; every IRI equals itself.
pub proof fn law_named_node_equality(a: NamedNode, b: NamedNode)
    ensures
        a.eq_spec(&b) <==> a@ == b@,
        a.eq_spec(&a),
{
}

/// An IRI turned into a subject term and then into a term is written as the
/// IRI itself: `<iri>`.
pub proof fn law_named_node_text_round_trip(n: NamedNode)
    ensures
        Term::from_spec(NamedOrBlankNode::from_spec(n))@.text() == iri_text(n@),
        NamedOrBlankNode::from_spec(n)@.text() == iri_text(n@),
{
}

/// Two triples built from equal subjects, predicates and objects are equal.
pub proof fn law_triples_from_equal_terms(
    s1: NamedOrBlankNode,
    p1: NamedNode,
    o1: Term,
    t1: Triple,
    s2: NamedOrBlankNode,
    p2: NamedNode,
    o2: Term,
    t2: Triple,
)
    requires
        t1@ == (TripleModel { subject: s1@, predicate: p1@, object: o1@ }),
        t2@ == (TripleModel { subject: s2@, predicate: p2@, object: o2@ }),
        s1.eq_spec(&s2),
        p1.eq_spec(&p2),
        o1.eq_spec(&o2),
    ensures
        t1.eq_spec(&t2),
{
}

/// The value of a fresh counter after `n` calls that each take the next identifier.
pub open spec fn counter_after(n: nat) -> u64
    decreases n,
{
    if n == 0 {
        0
    } else {
        match successor(counter_after((n - 1) as nat)) {
            Some(v) => v,
            None => counter_after((n - 1) as nat),
        }
    }
}

/// On a counter that starts at 0, call `k` (counting from 0) returns `k + 1`,
/// as long as no more than `u64::MAX` calls are made: the first `n` calls
/// return `1, ..., n`, no two alike.
pub proof fn law_identifiers_are_fresh(n: nat)
    requires
        n <= u64::MAX,
    ensures
        forall|k: nat| k < n ==> successor(#[trigger] counter_after(k)) == Some((k + 1) as u64),
        forall|j: nat, k: nat|
            j < k < n ==> successor(#[trigger] counter_after(j)) != successor(
                #[trigger] counter_after(k),
            ),
    decreases n,
{
    if n > 0 {
        law_identifiers_are_fresh((n - 1) as nat);
        lemma_counter_after((n - 1) as nat);
    }
}

/// After `k < u64::MAX` calls the counter holds `k`.
proof fn lemma_counter_after(k: nat)
    requires
        k < u64::MAX,
    ensures
        counter_after(k) == k,
    decreases k,
{
    if k > 0 {
        lemma_counter_after((k - 1) as nat);
    }
}

} // verus!
