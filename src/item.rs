use vstd::prelude::*;

use crate::convert::{idents_of, inits_follow, tuple_inits, FieldInit};
use crate::field::{
    classified, declared_kinds, extract_attr, extract_field_data, has_attr, is_first, strip_attr,
    untagged, FieldDecl, ItemFieldData,
};
use crate::lifetimes::{
    ext_lifetime_of, ext_params_of, get_lifetimes, lifetimes_error, GenericParamKind,
    LifetimeError, Lifetimes,
};
use crate::storage::{kinds_of, storages, storages_of, Shape, Storage};
use crate::view::{storages_main_views, MainViews};

verus! {

/// A declared data item: its name, the names (path text) of its attributes,
/// its generic parameters and its fields.
#[derive(Clone, Debug)]
pub struct ItemDecl {
    pub ident: String,
    pub attrs: Vec<String>,
    pub params: Vec<GenericParamKind>,
    pub fields: Vec<FieldDecl>,
}

/// What a system-data directive asks for: the owned storage tuple and its two
/// views. `attr_index` is where the directive stood among the item's attributes.
#[derive(Clone, Debug)]
pub struct SystemDataDefs {
    pub attr_index: usize,
    pub storages: Shape<Storage>,
    pub views: MainViews,
}

/// Everything derived from one data item: its scopes, the initializers that
/// build it from a tuple, its classified fields, the borrowed storage type
/// of its view, and the system-data definitions when the item asks for them.
#[derive(Clone, Debug)]
pub struct DataItemExpansion {
    pub lifetimes: Lifetimes,
    pub inits: Vec<FieldInit>,
    pub fields: Vec<ItemFieldData>,
    pub view: Shape<Storage>,
    pub system_data: Option<SystemDataDefs>,
}

/// The expansion `x` is the one derived from the declaration `item`.
pub open spec fn expands(x: DataItemExpansion, item: ItemDecl) -> bool {
    let kinds = declared_kinds(item.fields@);
    &&& lifetimes_error(item.params@) is None
    &&& item.params@[0] == GenericParamKind::Lifetime(x.lifetimes.item_lifetime)
    &&& x.lifetimes.ext_lifetime@ == ext_lifetime_of(x.lifetimes.item_lifetime@)
    &&& x.lifetimes.ext_generics@ == ext_params_of(item.params@)
    &&& inits_follow(x.inits@, idents_of(item.fields@))
    &&& classified(x.fields@, item.fields@)
    &&& x.view.shows(storages_of(kinds, true))
    &&& match x.system_data {
        Some(d) => {
            &&& is_first(item.attrs@, "system_data"@, d.attr_index as int)
            &&& d.storages.shows(storages_of(kinds, false))
            &&& d.views.describes(kinds)
        },
        None => !has_attr(item.attrs@, "system_data"@),
    }
}

/// Derives the types and conversions of a data item. The declaration loses
/// its role tags and its system-data directive; it is left as it was when the
/// item has no lifetime to borrow for.
pub fn expand_data_item(item: &mut ItemDecl) -> (r: Result<DataItemExpansion, LifetimeError>)
    ensures
        match r {
            Ok(x) => {
                &&& expands(x, *old(item))
                &&& final(item).ident == old(item).ident
                &&& final(item).params == old(item).params
                &&& final(item).attrs@ == strip_attr(old(item).attrs@, "system_data"@)
                &&& untagged(final(item).fields@, old(item).fields@)
            },
            Err(e) => {
                &&& lifetimes_error(old(item).params@) == Some(e)
                &&& *final(item) == *old(item)
            },
        },
{
    let lifetimes = match get_lifetimes(&item.params) {
        Ok(l) => l,
        Err(e) => {
            return Err(e);
        },
    };
    let inits = tuple_inits(&item.fields);
    let ghost fields0 = item.fields@;
    let fields = extract_field_data(&mut item.fields);
    proof {
        assert(kinds_of(fields@) =~= declared_kinds(fields0));
    }
    let attr = extract_attr(&mut item.attrs, "system_data");
    let system_data = match attr {
        Some(attr_index) => Some(
            SystemDataDefs {
                attr_index,
                storages: storages(false, &fields),
                views: storages_main_views(&fields),
            },
        ),
        None => None,
    };
    let view = storages(true, &fields);
    Ok(DataItemExpansion { lifetimes, inits, fields, view, system_data })
}

} // verus!
