use vstd::prelude::*;

use crate::field::{ItemFieldData, ItemFieldKind};

verus! {

/// How a sequence of elements is written as one type or value: no element
/// gives the unit, a single one stands bare, two or more form a tuple.
#[derive(Clone, Debug, PartialEq, Eq)]
pub enum Shape<T> {
    Unit,
    Bare(T),
    Tuple(Vec<T>),
}

impl<T> Shape<T> {
    /// The shape is the way of writing the element sequence `s`.
    pub open spec fn shows(self, s: Seq<T>) -> bool {
        match self {
            Shape::Unit => s.len() == 0,
            Shape::Bare(x) => s.len() == 1 && s[0] == x,
            Shape::Tuple(v) => s.len() >= 2 && v@ == s,
        }
    }
}

/// Writes the elements of `v` in order as one shape.
pub fn collapse<T>(v: Vec<T>) -> (r: Shape<T>)
    ensures
        r.shows(v@),
{
    if v.len() == 0 {
        Shape::Unit
    } else if v.len() == 1 {
        let mut v = v;
        let x = v.remove(0);
        Shape::Bare(x)
    } else {
        Shape::Tuple(v)
    }
}

/// The store's handle types.
#[derive(Clone, Copy, Debug, PartialEq, Eq, Structural)]
pub enum StorageKind {
    Entities,
    ReadStorage,
    WriteStorage,
    Read,
    Write,
}

/// How a handle is reached: owned, or through a shared or unique borrow.
#[derive(Clone, Copy, Debug, PartialEq, Eq, Structural)]
pub enum Access {
    Owned,
    Shared,
    Unique,
}

/// The handle through which the field at position `field` is fetched.
#[derive(Clone, Copy, Debug, PartialEq, Eq, Structural)]
pub struct Storage {
    pub kind: StorageKind,
    pub field: usize,
    pub access: Access,
}

pub open spec fn kinds_of(fields: Seq<ItemFieldData>) -> Seq<ItemFieldKind> {
    fields.map_values(|f: ItemFieldData| f.kind)
}

pub open spec fn storage_kind(k: ItemFieldKind) -> StorageKind {
    match k {
        ItemFieldKind::Entity => StorageKind::Entities,
        ItemFieldKind::Component => StorageKind::ReadStorage,
        ItemFieldKind::MutComponent => StorageKind::WriteStorage,
        ItemFieldKind::Resource => StorageKind::Read,
        ItemFieldKind::MutResource => StorageKind::Write,
    }
}

/// The handle of field `i`; a borrowed handle is borrowed uniquely exactly
/// when it is write-capable.
pub open spec fn storage_of(k: ItemFieldKind, i: int, borrowed: bool) -> Storage {
    Storage {
        kind: storage_kind(k),
        field: i as usize,
        access: if !borrowed {
            Access::Owned
        } else if k.spec_is_mut() {
            Access::Unique
        } else {
            Access::Shared
        },
    }
}

/// The handles of all fields, in declaration order.
pub open spec fn storages_of(kinds: Seq<ItemFieldKind>, borrowed: bool) -> Seq<Storage> {
    Seq::new(kinds.len(), |i: int| storage_of(kinds[i], i, borrowed))
}

/// The handle of one field.
pub fn field_storage(k: ItemFieldKind, i: usize, borrowed: bool) -> (r: Storage)
    ensures
        r == storage_of(k, i as int, borrowed),
{
    let kind = match k {
        ItemFieldKind::Entity => StorageKind::Entities,
        ItemFieldKind::Component => StorageKind::ReadStorage,
        ItemFieldKind::MutComponent => StorageKind::WriteStorage,
        ItemFieldKind::Resource => StorageKind::Read,
        ItemFieldKind::MutResource => StorageKind::Write,
    };
    let access = if !borrowed {
        Access::Owned
    } else if k.is_mut() {
        Access::Unique
    } else {
        Access::Shared
    };
    Storage { kind, field: i, access }
}

/// The type through which all fields are fetched from the store: owned
/// handles, or handles borrowed for the outer scope when `borrowed` holds.
pub fn storages(borrowed: bool, fields: &Vec<ItemFieldData>) -> (r: Shape<Storage>)
    ensures
        r.shows(storages_of(kinds_of(fields@), borrowed)),
{
    let ghost kinds = kinds_of(fields@);
    let mut v: Vec<Storage> = Vec::new();
    let mut i: usize = 0;
    while i < fields.len()
        invariant
            i <= fields@.len(),
            kinds == kinds_of(fields@),
            v@ == storages_of(kinds.take(i as int), borrowed),
        decreases fields@.len() - i,
    {
        let s = field_storage(fields[i].kind, i, borrowed);
        proof {
            assert(kinds[i as int] == fields@[i as int].kind);
        }
        v.push(s);
        i = i + 1;
        assert(v@ =~= storages_of(kinds.take(i as int), borrowed));
    }
    assert(kinds.take(i as int) =~= kinds);
    collapse(v)
}

} // verus!
