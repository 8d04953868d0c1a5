use vstd::prelude::*;

use crate::field::{ItemFieldData, ItemFieldKind};
use crate::storage::{
    collapse, field_storage, kinds_of, storage_of, storages, storages_of, Shape, Storage,
};

verus! {

/// A borrow of one position of the storage tuple.
#[derive(Clone, Copy, Debug, PartialEq, Eq, Structural)]
pub struct FieldRef {
    pub field: usize,
    pub mutable: bool,
}

/// The two projections of a storage tuple: the read-only view of the fields
/// that are only read, and the full-row view in which the write-capable
/// fields are borrowed mutably. Each comes with its type and with the
/// expression that borrows it out of the tuple.
#[derive(Clone, Debug)]
pub struct MainViews {
    pub view_type: Shape<Storage>,
    pub view_ret: Shape<FieldRef>,
    pub view_mut_type: Shape<Storage>,
    pub view_mut_ret: Shape<FieldRef>,
}

/// The positions of the fields that are only read, in declaration order.
pub open spec fn read_positions(kinds: Seq<ItemFieldKind>) -> Seq<int>
    decreases kinds.len(),
{
    if kinds.len() == 0 {
        Seq::empty()
    } else {
        let p = read_positions(kinds.drop_last());
        if kinds.last().spec_is_mut() {
            p
        } else {
            p.push(kinds.len() - 1)
        }
    }
}

pub open spec fn all_read(kinds: Seq<ItemFieldKind>) -> bool {
    forall|i: int| 0 <= i < kinds.len() ==> !(#[trigger] kinds[i]).spec_is_mut()
}

pub open spec fn all_write(kinds: Seq<ItemFieldKind>) -> bool {
    forall|i: int| 0 <= i < kinds.len() ==> (#[trigger] kinds[i]).spec_is_mut()
}

/// The element types of the read-only view: a shared borrow of each read field.
pub open spec fn immutable_view(kinds: Seq<ItemFieldKind>) -> Seq<Storage> {
    read_positions(kinds).map_values(|p: int| storage_of(kinds[p], p, true))
}

/// The borrows that build the read-only view.
pub open spec fn immutable_ret(kinds: Seq<ItemFieldKind>) -> Seq<FieldRef> {
    read_positions(kinds).map_values(|p: int| FieldRef { field: p as usize, mutable: false })
}

/// A borrow of every position, mutable exactly for the write-capable fields.
pub open spec fn full_row_ret(kinds: Seq<ItemFieldKind>) -> Seq<FieldRef> {
    Seq::new(
        kinds.len(),
        |i: int| FieldRef { field: i as usize, mutable: kinds[i].spec_is_mut() },
    )
}

/// The element types of the read-write view: none when every field is only
/// read, else the borrowed handles of all fields.
pub open spec fn mutable_view(kinds: Seq<ItemFieldKind>) -> Seq<Storage> {
    if all_read(kinds) {
        Seq::empty()
    } else {
        storages_of(kinds, true)
    }
}

/// The borrows that build the read-write view.
pub open spec fn mutable_ret(kinds: Seq<ItemFieldKind>) -> Seq<FieldRef> {
    if all_read(kinds) {
        Seq::empty()
    } else {
        full_row_ret(kinds)
    }
}

impl MainViews {
    /// The views are those of a storage tuple over fields of these kinds.
    pub open spec fn describes(self, kinds: Seq<ItemFieldKind>) -> bool {
        &&& self.view_type.shows(immutable_view(kinds))
        &&& self.view_ret.shows(immutable_ret(kinds))
        &&& self.view_mut_type.shows(mutable_view(kinds))
        &&& self.view_mut_ret.shows(mutable_ret(kinds))
    }
}

/// Each read position is a field that is only read, they rise strictly, and
/// there are as many as fields exactly when every field is only read.
pub proof fn lemma_read_positions(kinds: Seq<ItemFieldKind>)
    ensures
        read_positions(kinds).len() <= kinds.len(),
        forall|j: int|
            0 <= j < read_positions(kinds).len() ==> {
                let p = #[trigger] read_positions(kinds)[j];
                0 <= p < kinds.len() && !kinds[p].spec_is_mut()
            },
        forall|a: int, b: int|
            0 <= a < b < read_positions(kinds).len() ==> read_positions(kinds)[a]
                < read_positions(kinds)[b],
        read_positions(kinds).len() == kinds.len() <==> all_read(kinds),
        all_write(kinds) ==> read_positions(kinds).len() == 0,
    decreases kinds.len(),
{
    if kinds.len() > 0 {
        let init = kinds.drop_last();
        lemma_read_positions(init);
        assert forall|i: int| 0 <= i < init.len() implies init[i] == kinds[i] by {}
        if all_read(kinds) {
            assert(all_read(init));
        }
        if read_positions(kinds).len() == kinds.len() {
            assert(!kinds.last().spec_is_mut());
            assert(read_positions(init).len() == init.len());
            assert(all_read(init));
            assert forall|i: int| 0 <= i < kinds.len() implies !(#[trigger] kinds[i]).spec_is_mut() by {
                if i < init.len() {
                    assert(!init[i].spec_is_mut());
                }
            }
        }
        if all_write(kinds) {
            assert(all_write(init));
            assert(kinds[kinds.len() - 1].spec_is_mut());
        }
    }
}

/// The two views of the storage tuple over `fields`.
pub fn storages_main_views(fields: &Vec<ItemFieldData>) -> (r: MainViews)
    ensures
        r.describes(kinds_of(fields@)),
{
    let ghost kinds = kinds_of(fields@);
    let mut view_storages: Vec<Storage> = Vec::new();
    let mut view_refs: Vec<FieldRef> = Vec::new();
    let mut row_refs: Vec<FieldRef> = Vec::new();
    let mut i: usize = 0;
    while i < fields.len()
        invariant
            i <= fields@.len(),
            kinds == kinds_of(fields@),
            view_storages@ == read_positions(kinds.take(i as int)).map_values(
                |p: int| storage_of(kinds[p], p, true),
            ),
            view_refs@ == read_positions(kinds.take(i as int)).map_values(
                |p: int| FieldRef { field: p as usize, mutable: false },
            ),
            row_refs@ == full_row_ret(kinds.take(i as int)),
        decreases fields@.len() - i,
    {
        let kind = fields[i].kind;
        let ghost prev = kinds.take(i as int);
        let ghost next = kinds.take(i as int + 1);
        proof {
            assert(kind == kinds[i as int]);
            assert(next.drop_last() =~= prev);
            assert(next.last() == kind);
        }
        let mutable = kind.is_mut();
        if !mutable {
            view_storages.push(field_storage(kind, i, true));
            view_refs.push(FieldRef { field: i, mutable: false });
        }
        row_refs.push(FieldRef { field: i, mutable });
        i = i + 1;
        proof {
            assert(view_storages@ =~= read_positions(next).map_values(
                |p: int| storage_of(kinds[p], p, true),
            ));
            assert(view_refs@ =~= read_positions(next).map_values(
                |p: int| FieldRef { field: p as usize, mutable: false },
            ));
            assert(row_refs@ =~= full_row_ret(next));
        }
    }
    proof {
        assert(kinds.take(i as int) =~= kinds);
        lemma_read_positions(kinds);
    }
    let n_read = view_refs.len();
    let view_type = collapse(view_storages);
    let view_ret = collapse(view_refs);
    if n_read == fields.len() {
        MainViews { view_type, view_ret, view_mut_type: Shape::Unit, view_mut_ret: Shape::Unit }
    } else {
        let view_mut_type = storages(true, fields);
        let view_mut_ret = collapse(row_refs);
        MainViews { view_type, view_ret, view_mut_type, view_mut_ret }
    }
}

} // verus!
