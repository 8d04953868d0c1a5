use vstd::prelude::*;

verus! {

/// A data item whose fields are fetched together from the store: `View` is
/// the tuple of borrowed storages that serves the item's scope `'a` from a
/// store that lives for `'b`.
pub trait DataItem<'a, 'b> {
    type View;
}

/// The borrowed storage tuple of a data item.
pub type DataView<'a, 'b, T> = <T as DataItem<'a, 'b>>::View;

/// The two projections of a storage tuple: a read-only view of the fields
/// that are only read, and a full-row view that borrows the write-capable
/// fields mutably.
pub trait MainView<'a> {
    type ViewAllImmutable;

    type ViewAllWithMut;

    fn view(&'a self) -> Self::ViewAllImmutable;

    fn view_mut(&'a mut self) -> Self::ViewAllWithMut;
}

} // verus!
