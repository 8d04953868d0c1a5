use vstd::prelude::*;

use crate::field::FieldDecl;

verus! {

/// One initializer of the record built from a tuple: the named field takes the
/// tuple's element at `position`.
#[derive(Clone, Debug)]
pub struct FieldInit {
    pub field: String,
    pub position: usize,
}

/// The names of the declared fields, in order.
pub open spec fn idents_of(fields: Seq<FieldDecl>) -> Seq<Seq<char>> {
    fields.map_values(|f: FieldDecl| f.ident@)
}

/// The initializers give the `i`-th tuple element to the `i`-th named field.
pub open spec fn inits_follow(inits: Seq<FieldInit>, names: Seq<Seq<char>>) -> bool {
    &&& inits.len() == names.len()
    &&& forall|i: int|
        0 <= i < inits.len() ==> {
            &&& (#[trigger] inits[i]).field@ == names[i]
            &&& inits[i].position == i
        }
}

/// Field names of a record are distinct.
pub open spec fn distinct_names(names: Seq<Seq<char>>) -> bool {
    forall|i: int, j: int| 0 <= i < j < names.len() ==> names[i] != names[j]
}

/// The record that the initializers build from the tuple `t`, by field name.
pub open spec fn record_from_tuple<V>(inits: Seq<FieldInit>, t: Seq<V>) -> Map<Seq<char>, V>
    decreases inits.len(),
{
    if inits.len() == 0 {
        Map::empty()
    } else {
        record_from_tuple(inits.drop_last(), t).insert(
            inits.last().field@,
            t[inits.last().position as int],
        )
    }
}

/// The tuple of a record's values, in the order of the field names.
pub open spec fn tuple_from_record<V>(names: Seq<Seq<char>>, r: Map<Seq<char>, V>) -> Seq<V> {
    Seq::new(names.len(), |i: int| r[names[i]])
}

/// The initializers that build a record from the tuple of its field types.
pub fn tuple_inits(fields: &Vec<FieldDecl>) -> (r: Vec<FieldInit>)
    ensures
        inits_follow(r@, idents_of(fields@)),
{
    let mut r: Vec<FieldInit> = Vec::new();
    let mut i: usize = 0;
    while i < fields.len()
        invariant
            i <= fields@.len(),
            inits_follow(r@, idents_of(fields@).take(i as int)),
        decreases fields@.len() - i,
    {
        r.push(FieldInit { field: fields[i].ident.clone(), position: i });
        i = i + 1;
        assert(inits_follow(r@, idents_of(fields@).take(i as int)));
    }
    assert(idents_of(fields@).take(i as int) =~= idents_of(fields@));
    r
}

proof fn lemma_record_entries<V>(inits: Seq<FieldInit>, names: Seq<Seq<char>>, t: Seq<V>)
    requires
        inits_follow(inits, names),
        distinct_names(names),
        names.len() <= t.len(),
    ensures
        forall|k: Seq<char>|
            #[trigger] record_from_tuple(inits, t).contains_key(k) <==> exists|j: int|
                0 <= j < names.len() && names[j] == k,
        forall|j: int|
            0 <= j < names.len() ==> #[trigger] record_from_tuple(inits, t)[names[j]] == t[j],
    decreases inits.len(),
{
    if inits.len() > 0 {
        let n = inits.len() - 1;
        let names0 = names.drop_last();
        let inits0 = inits.drop_last();
        assert(inits_follow(inits0, names0)) by {
            assert forall|i: int| 0 <= i < inits0.len() implies {
                &&& (#[trigger] inits0[i]).field@ == names0[i]
                &&& inits0[i].position == i
            } by {
                assert(inits0[i] == inits[i]);
            }
        }
        lemma_record_entries(inits0, names0, t);
        let rec = record_from_tuple(inits, t);
        let rec0 = record_from_tuple(inits0, t);
        assert(inits.last() == inits[n]);
        assert(rec == rec0.insert(names[n], t[n]));
        assert forall|k: Seq<char>| #[trigger] rec.contains_key(k) <==> exists|j: int|
            0 <= j < names.len() && names[j] == k by {
            if rec.contains_key(k) && k != names[n] {
                assert(rec0.contains_key(k));
                let j = choose|j: int| 0 <= j < names0.len() && names0[j] == k;
                assert(names[j] == k);
            }
            if exists|j: int| 0 <= j < names.len() && names[j] == k {
                let j = choose|j: int| 0 <= j < names.len() && names[j] == k;
                if j < n {
                    assert(names0[j] == k);
                    assert(rec0.contains_key(k));
                }
            }
        }
        assert forall|j: int| 0 <= j < names.len() implies #[trigger] rec[names[j]] == t[j] by {
            if j < n {
                assert(names0[j] == names[j]);
                assert(names[j] != names[n]);
                assert(rec0[names0[j]] == t[j]);
            }
        }
    } else {
        assert forall|k: Seq<char>| #[trigger] record_from_tuple(inits, t).contains_key(k) <==> exists|j: int|
            0 <= j < names.len() && names[j] == k by {}
    }
}

/// Building a record from a tuple and reading its values back in field order
/// gives the same tuple, position for position.
pub proof fn law_tuple_round_trip<V>(inits: Seq<FieldInit>, names: Seq<Seq<char>>, t: Seq<V>)
    requires
        inits_follow(inits, names),
        distinct_names(names),
        t.len() == names.len(),
    ensures
        tuple_from_record(names, record_from_tuple(inits, t)) == t,
{
    lemma_record_entries(inits, names, t);
    assert(tuple_from_record(names, record_from_tuple(inits, t)) =~= t);
}

/// Reading a record's values in field order and building a record from them
/// gives the same record.
pub proof fn law_record_round_trip<V>(
    inits: Seq<FieldInit>,
    names: Seq<Seq<char>>,
    r: Map<Seq<char>, V>,
)
    requires
        inits_follow(inits, names),
        distinct_names(names),
        r.dom() == names.to_set(),
    ensures
        record_from_tuple(inits, tuple_from_record(names, r)) == r,
{
    let t = tuple_from_record(names, r);
    lemma_record_entries(inits, names, t);
    let rec = record_from_tuple(inits, t);
    assert forall|k: Seq<char>| #[trigger] rec.contains_key(k) <==> r.dom().contains(k) by {
        if r.dom().contains(k) {
            assert(names.to_set().contains(k));
            let j = choose|j: int| 0 <= j < names.len() && names[j] == k;
        }
        if rec.contains_key(k) {
            let j = choose|j: int| 0 <= j < names.len() && names[j] == k;
            assert(names.contains(k));
        }
    }
    assert forall|k: Seq<char>| #[trigger] rec.contains_key(k) implies rec[k] == r[k] by {
        let j = choose|j: int| 0 <= j < names.len() && names[j] == k;
        assert(rec[names[j]] == t[j]);
    }
    assert(rec =~= r);
}

} // verus!
