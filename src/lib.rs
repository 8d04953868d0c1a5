//! Derivations for data items of an entity-component store.
//!
//! A data item is a record of fields, each an entity handle, a component or a
//! resource, read or written. From its declaration this crate derives the
//! storage types through which the fields are fetched, the read-only and
//! read-write views of those storages, the conversion from a tuple of field
//! values, and the binding of a processing routine to the store's contract.
//! Every derivation is stated over sequences of field kinds and proved.

mod convert;
mod data;
mod field;
mod item;
mod laws;
mod lifetimes;
mod storage;
mod system;
mod view;

pub use convert::{
    law_record_round_trip, law_tuple_round_trip, tuple_inits, FieldInit,
};
pub use data::{DataItem, DataView, MainView};
pub use field::{
    classify_field, classify_role, extract_attr, extract_field_data, field_kind_of, get_attr,
    FieldDecl, FieldType, ItemFieldData, ItemFieldKind, Role,
};
pub use item::{expand_data_item, DataItemExpansion, ItemDecl, SystemDataDefs};
pub use laws::{
    law_all_read, law_all_write, law_declaration_order, law_degenerate_collapse,
    law_permuted_fields, law_views_disjoint,
};
pub use lifetimes::{get_lifetimes, ExtParam, GenericParamKind, LifetimeError, Lifetimes};
pub use storage::{collapse, field_storage, storages, Access, Shape, Storage, StorageKind};
pub use system::{expand_system, law_one_entry_point, ImplItemDecl, RoutineBinding, SystemError};
pub use view::{storages_main_views, FieldRef, MainViews};
