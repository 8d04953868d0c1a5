use vstd::prelude::*;

use crate::convert::{inits_follow, FieldInit};
use crate::field::ItemFieldKind;
use crate::storage::{storages_of, Access, Shape, Storage};
use crate::view::{
    all_read, all_write, immutable_ret, immutable_view, lemma_read_positions, mutable_ret,
    mutable_view, read_positions, FieldRef, MainViews,
};

verus! {

/// No field is both in the read-only view and borrowed mutably by the
/// read-write view: neither by the views' types nor by their accessors.
pub proof fn law_views_disjoint(kinds: Seq<ItemFieldKind>)
    requires
        kinds.len() <= usize::MAX,
    ensures
        forall|a: int, b: int|
            0 <= a < immutable_ret(kinds).len() && 0 <= b < mutable_ret(kinds).len()
                && (#[trigger] mutable_ret(kinds)[b]).mutable ==> (#[trigger] immutable_ret(
                kinds,
            )[a]).field != mutable_ret(kinds)[b].field,
        forall|a: int, b: int|
            0 <= a < immutable_view(kinds).len() && 0 <= b < mutable_view(kinds).len()
                && (#[trigger] mutable_view(kinds)[b]).access == Access::Unique ==> (
            #[trigger] immutable_view(kinds)[a]).field != mutable_view(kinds)[b].field,
        forall|a: int|
            0 <= a < immutable_view(kinds).len() ==> (#[trigger] immutable_view(kinds)[a]).access
                == Access::Shared,
{
    lemma_read_positions(kinds);
    let rp = read_positions(kinds);
    assert forall|a: int, b: int|
        0 <= a < immutable_ret(kinds).len() && 0 <= b < mutable_ret(kinds).len()
            && (#[trigger] mutable_ret(kinds)[b]).mutable implies (#[trigger] immutable_ret(
        kinds,
    )[a]).field != mutable_ret(kinds)[b].field by {
        let p = rp[a];
        assert(0 <= p < kinds.len() && !kinds[p].spec_is_mut());
        assert(kinds[b].spec_is_mut());
    }
    assert forall|a: int, b: int|
        0 <= a < immutable_view(kinds).len() && 0 <= b < mutable_view(kinds).len()
            && (#[trigger] mutable_view(kinds)[b]).access == Access::Unique implies (
    #[trigger] immutable_view(kinds)[a]).field != mutable_view(kinds)[b].field by {
        let p = rp[a];
        assert(0 <= p < kinds.len() && !kinds[p].spec_is_mut());
        assert(kinds[b].spec_is_mut());
    }
    assert forall|a: int| 0 <= a < immutable_view(kinds).len() implies (#[trigger] immutable_view(
        kinds,
    )[a]).access == Access::Shared by {
        let p = rp[a];
        assert(0 <= p < kinds.len() && !kinds[p].spec_is_mut());
    }
}

/// With no field that is only read, the read-only view and its accessor are
/// the unit. A single field stands bare, never as a one-element tuple, in the
/// storage type and in whichever view holds it, with a direct accessor.
pub proof fn law_degenerate_collapse(
    kinds: Seq<ItemFieldKind>,
    owned: Shape<Storage>,
    views: MainViews,
)
    requires
        owned.shows(storages_of(kinds, false)),
        views.describes(kinds),
    ensures
        all_write(kinds) ==> views.view_type is Unit && views.view_ret is Unit,
        kinds.len() == 1 ==> owned is Bare,
        kinds.len() == 1 && !kinds[0].spec_is_mut() ==> {
            &&& views.view_type is Bare
            &&& views.view_ret == Shape::Bare(FieldRef { field: 0, mutable: false })
            &&& views.view_mut_type is Unit
            &&& views.view_mut_ret is Unit
        },
        kinds.len() == 1 && kinds[0].spec_is_mut() ==> {
            &&& views.view_type is Unit
            &&& views.view_ret is Unit
            &&& views.view_mut_type is Bare
            &&& views.view_mut_ret == Shape::Bare(FieldRef { field: 0, mutable: true })
        },
{
    lemma_read_positions(kinds);
    if kinds.len() == 1 {
        if kinds[0].spec_is_mut() {
            assert(all_write(kinds));
            assert(!all_read(kinds));
        } else {
            assert(all_read(kinds));
            assert(read_positions(kinds)[0] == 0);
        }
    }
}

/// When every field is only read, the read-write view and its accessor are
/// the unit.
pub proof fn law_all_read(kinds: Seq<ItemFieldKind>, views: MainViews)
    requires
        views.describes(kinds),
        all_read(kinds),
    ensures
        views.view_mut_type is Unit,
        views.view_mut_ret is Unit,
        immutable_view(kinds).len() == kinds.len(),
{
    lemma_read_positions(kinds);
}

/// When every field is write-capable, the read-only view is the unit and the
/// read-write view is the whole borrowed storage type.
pub proof fn law_all_write(kinds: Seq<ItemFieldKind>, views: MainViews, borrowed: Shape<Storage>)
    requires
        views.describes(kinds),
        borrowed.shows(storages_of(kinds, true)),
        all_write(kinds),
    ensures
        views.view_type is Unit,
        views.view_ret is Unit,
        views.view_mut_type.shows(storages_of(kinds, true)),
        borrowed.shows(mutable_view(kinds)),
{
    lemma_read_positions(kinds);
    if kinds.len() > 0 {
        assert(kinds[0].spec_is_mut());
        assert(!all_read(kinds));
    } else {
        assert(storages_of(kinds, true) =~= Seq::empty());
    }
}

/// Every aggregate puts field `i` at position `i`: the storage types, owned or
/// borrowed, the full-row accessor and the tuple initializers; the read-only
/// view keeps the declaration order of the fields it holds.
pub proof fn law_declaration_order(
    kinds: Seq<ItemFieldKind>,
    inits: Seq<FieldInit>,
    names: Seq<Seq<char>>,
    borrowed: bool,
)
    requires
        kinds.len() <= usize::MAX,
        names.len() == kinds.len(),
        inits_follow(inits, names),
    ensures
        forall|i: int|
            0 <= i < kinds.len() ==> {
                &&& (#[trigger] storages_of(kinds, borrowed)[i]).field == i
                &&& mutable_ret(kinds).len() > 0 ==> mutable_ret(kinds)[i].field == i
                &&& inits[i].position == i
                &&& inits[i].field@ == names[i]
            },
        forall|a: int, b: int|
            0 <= a < b < immutable_ret(kinds).len() ==> (#[trigger] immutable_ret(kinds)[a]).field
                < (#[trigger] immutable_ret(kinds)[b]).field,
{
    lemma_read_positions(kinds);
    assert forall|a: int, b: int|
        0 <= a < b < immutable_ret(kinds).len() implies (#[trigger] immutable_ret(kinds)[a]).field
        < (#[trigger] immutable_ret(kinds)[b]).field by {
        let rp = read_positions(kinds);
        assert(0 <= rp[a] < rp[b] < kinds.len());
    }
}

/// Declaring the fields in another order moves their storage types, owned or
/// borrowed, and their tuple positions in the same way.
pub proof fn law_permuted_fields(
    kinds: Seq<ItemFieldKind>,
    names: Seq<Seq<char>>,
    perm: Seq<int>,
    kinds2: Seq<ItemFieldKind>,
    names2: Seq<Seq<char>>,
    inits2: Seq<FieldInit>,
    borrowed: bool,
)
    requires
        names.len() == kinds.len(),
        perm.len() == kinds.len(),
        forall|i: int| 0 <= i < perm.len() ==> 0 <= #[trigger] perm[i] < kinds.len(),
        kinds2.len() == kinds.len(),
        names2.len() == names.len(),
        forall|i: int|
            0 <= i < perm.len() ==> #[trigger] kinds2[i] == kinds[perm[i]] && names2[i]
                == names[perm[i]],
        inits_follow(inits2, names2),
    ensures
        forall|i: int|
            0 <= i < kinds2.len() ==> {
                &&& (#[trigger] storages_of(kinds2, borrowed)[i]).kind == storages_of(
                    kinds,
                    borrowed,
                )[perm[i]].kind
                &&& storages_of(kinds2, borrowed)[i].access == storages_of(
                    kinds,
                    borrowed,
                )[perm[i]].access
                &&& inits2[i].field@ == names[perm[i]]
            },
{
}

} // verus!
