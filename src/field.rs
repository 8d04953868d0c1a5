use vstd::prelude::*;

verus! {

/// What kind of store-managed value a field denotes.
#[derive(Clone, Copy, Debug, PartialEq, Eq, Structural)]
pub enum Role {
    Entity,
    Component,
    Resource,
}

/// A field's role together with its access mode.
#[derive(Clone, Copy, Debug, PartialEq, Eq, Structural)]
pub enum ItemFieldKind {
    Entity,
    Component,
    Resource,
    MutComponent,
    MutResource,
}

impl ItemFieldKind {
    pub open spec fn spec_is_mut(self) -> bool {
        self is MutComponent || self is MutResource
    }

    /// Whether the field is reached through a write-capable handle.
    pub fn is_mut(&self) -> (r: bool)
        ensures
            r == self.spec_is_mut(),
    {
        match self {
            ItemFieldKind::MutComponent | ItemFieldKind::MutResource => true,
            _ => false,
        }
    }
}

/// The shape of a declared field type. Each variant holds the payload type as
/// token text: the referent for a reference, the whole type otherwise.
#[derive(Clone, Debug)]
pub enum FieldType {
    Owned(String),
    Shared(String),
    Unique(String),
}

impl FieldType {
    pub open spec fn payload(self) -> Seq<char> {
        match self {
            FieldType::Owned(t) => t@,
            FieldType::Shared(t) => t@,
            FieldType::Unique(t) => t@,
        }
    }
}

/// One declared field of a data item: its name, its type and the names
/// (path text) of the attributes written on it.
#[derive(Clone, Debug)]
pub struct FieldDecl {
    pub ident: String,
    pub ty: FieldType,
    pub attrs: Vec<String>,
}

/// A classified field: its kind and its payload type as token text.
#[derive(Clone, Debug)]
pub struct ItemFieldData {
    pub kind: ItemFieldKind,
    pub field_type: String,
}

pub open spec fn has_attr(attrs: Seq<String>, name: Seq<char>) -> bool {
    exists|j: int| 0 <= j < attrs.len() && #[trigger] attrs[j]@ == name
}

/// `i` is the first position of an attribute called `name`.
pub open spec fn is_first(attrs: Seq<String>, name: Seq<char>, i: int) -> bool {
    &&& 0 <= i < attrs.len()
    &&& attrs[i]@ == name
    &&& forall|j: int| 0 <= j < i ==> #[trigger] attrs[j]@ != name
}

/// The attribute list without its first attribute called `name`, if any.
pub open spec fn strip_attr(attrs: Seq<String>, name: Seq<char>) -> Seq<String> {
    if exists|i: int| is_first(attrs, name, i) {
        attrs.remove(choose|i: int| is_first(attrs, name, i))
    } else {
        attrs
    }
}

/// The role of a field: an entity tag or the entity-handle payload type
/// `Entity` gives Entity; else a resource tag gives Resource; else Component.
/// A component tag never changes the outcome, so several tags on one field
/// resolve by this fixed order.
pub open spec fn role_of(payload: Seq<char>, entity_tag: bool, resource_tag: bool) -> Role {
    if entity_tag || payload == "Entity"@ {
        Role::Entity
    } else if resource_tag {
        Role::Resource
    } else {
        Role::Component
    }
}

/// Entities are always read; components and resources follow the borrow.
pub open spec fn kind_of(role: Role, mutable: bool) -> ItemFieldKind {
    match role {
        Role::Entity => ItemFieldKind::Entity,
        Role::Component => if mutable {
            ItemFieldKind::MutComponent
        } else {
            ItemFieldKind::Component
        },
        Role::Resource => if mutable {
            ItemFieldKind::MutResource
        } else {
            ItemFieldKind::Resource
        },
    }
}

pub open spec fn field_kind(f: FieldDecl) -> ItemFieldKind {
    kind_of(
        role_of(f.ty.payload(), has_attr(f.attrs@, "entity"@), has_attr(f.attrs@, "resource"@)),
        f.ty is Unique,
    )
}

/// The attributes of a field once the role tags are taken off.
pub open spec fn untagged_attrs(attrs: Seq<String>) -> Seq<String> {
    strip_attr(strip_attr(strip_attr(attrs, "entity"@), "resource"@), "component"@)
}

/// `data` classifies the declared `fields`, position for position.
pub open spec fn classified(data: Seq<ItemFieldData>, fields: Seq<FieldDecl>) -> bool {
    &&& data.len() == fields.len()
    &&& forall|i: int|
        0 <= i < data.len() ==> {
            &&& (#[trigger] data[i]).kind == field_kind(fields[i])
            &&& data[i].field_type@ == fields[i].ty.payload()
        }
}

/// `new` is `old` with the role tags taken off each field.
pub open spec fn untagged(new: Seq<FieldDecl>, old: Seq<FieldDecl>) -> bool {
    &&& new.len() == old.len()
    &&& forall|i: int|
        0 <= i < new.len() ==> {
            &&& (#[trigger] new[i]).ident == old[i].ident
            &&& new[i].ty == old[i].ty
            &&& new[i].attrs@ == untagged_attrs(old[i].attrs@)
        }
}

/// The kinds of the declared fields, in order.
pub open spec fn declared_kinds(fields: Seq<FieldDecl>) -> Seq<ItemFieldKind> {
    fields.map_values(|f: FieldDecl| field_kind(f))
}

proof fn lemma_first_unique(attrs: Seq<String>, name: Seq<char>, i: int, k: int)
    requires
        is_first(attrs, name, i),
        is_first(attrs, name, k),
    ensures
        i == k,
{
    if k < i {
        assert(attrs[k]@ != name);
    } else if i < k {
        assert(attrs[i]@ != name);
    }
}

/// Taking off one attribute called `a` keeps the presence of any other name.
proof fn lemma_strip_keeps_other(attrs: Seq<String>, a: Seq<char>, b: Seq<char>)
    requires
        a != b,
    ensures
        has_attr(strip_attr(attrs, a), b) == has_attr(attrs, b),
{
    if exists|i: int| is_first(attrs, a, i) {
        let i = choose|i: int| is_first(attrs, a, i);
        let s = attrs.remove(i);
        if has_attr(attrs, b) {
            let j = choose|j: int| 0 <= j < attrs.len() && #[trigger] attrs[j]@ == b;
            if j < i {
                assert(s[j]@ == b);
            } else {
                assert(j != i);
                assert(s[j - 1]@ == b);
            }
        }
        if has_attr(s, b) {
            let j = choose|j: int| 0 <= j < s.len() && #[trigger] s[j]@ == b;
            if j < i {
                assert(attrs[j]@ == b);
            } else {
                assert(attrs[j + 1]@ == b);
            }
        }
    }
}

/// The position of the first attribute called `name`.
pub fn get_attr(attrs: &Vec<String>, name: &str) -> (r: Option<usize>)
    ensures
        match r {
            Some(i) => is_first(attrs@, name@, i as int),
            None => !has_attr(attrs@, name@),
        },
{
    let target = name.to_owned();
    let mut i: usize = 0;
    while i < attrs.len()
        invariant
            i <= attrs@.len(),
            target@ == name@,
            forall|j: int| 0 <= j < i ==> #[trigger] attrs@[j]@ != name@,
        decreases attrs@.len() - i,
    {
        if attrs[i].eq(&target) {
            return Some(i);
        }
        i = i + 1;
    }
    None
}

/// Removes the first attribute called `name` and returns its position.
pub fn extract_attr(attrs: &mut Vec<String>, name: &str) -> (r: Option<usize>)
    ensures
        final(attrs)@ == strip_attr(old(attrs)@, name@),
        match r {
            Some(i) => is_first(old(attrs)@, name@, i as int),
            None => !has_attr(old(attrs)@, name@),
        },
{
    let r = get_attr(attrs, name);
    match r {
        Some(i) => {
            proof {
                let k = choose|k: int| is_first(attrs@, name@, k);
                lemma_first_unique(attrs@, name@, i as int, k);
            }
            attrs.remove(i);
        },
        None => {
            proof {
                if exists|k: int| is_first(attrs@, name@, k) {
                    let k = choose|k: int| is_first(attrs@, name@, k);
                    assert(attrs@[k]@ == name@);
                }
            }
        },
    }
    r
}

/// Resolves a field's role from its payload type and its tags.
pub fn classify_role(payload: &String, entity_tag: bool, resource_tag: bool) -> (r: Role)
    ensures
        r == role_of(payload@, entity_tag, resource_tag),
{
    let entity = "Entity".to_owned();
    if entity_tag || payload.eq(&entity) {
        Role::Entity
    } else if resource_tag {
        Role::Resource
    } else {
        Role::Component
    }
}

/// Combines a role with the field's access mode.
pub fn field_kind_of(role: Role, mutable: bool) -> (r: ItemFieldKind)
    ensures
        r == kind_of(role, mutable),
{
    match role {
        Role::Entity => ItemFieldKind::Entity,
        Role::Component => if mutable {
            ItemFieldKind::MutComponent
        } else {
            ItemFieldKind::Component
        },
        Role::Resource => if mutable {
            ItemFieldKind::MutResource
        } else {
            ItemFieldKind::Resource
        },
    }
}

/// Classifies one field and takes its role tags off it.
pub fn classify_field(field: &mut FieldDecl) -> (r: ItemFieldData)
    ensures
        r.kind == field_kind(*old(field)),
        r.field_type@ == old(field).ty.payload(),
        final(field).ident == old(field).ident,
        final(field).ty == old(field).ty,
        final(field).attrs@ == untagged_attrs(old(field).attrs@),
{
    proof {
        reveal_strlit("entity");
        reveal_strlit("resource");
        reveal_strlit("component");
    }
    let ghost attrs0 = field.attrs@;
    let (mutable, payload) = match &field.ty {
        FieldType::Owned(t) => (false, t.clone()),
        FieldType::Shared(t) => (false, t.clone()),
        FieldType::Unique(t) => (true, t.clone()),
    };
    let entity_tag = extract_attr(&mut field.attrs, "entity").is_some();
    let ghost attrs1 = field.attrs@;
    let resource_tag = extract_attr(&mut field.attrs, "resource").is_some();
    let ghost attrs2 = field.attrs@;
    let _ = extract_attr(&mut field.attrs, "component");
    proof {
        assert("entity"@.len() != "resource"@.len());
        lemma_strip_keeps_other(attrs0, "entity"@, "resource"@);
        assert(resource_tag == has_attr(attrs0, "resource"@));
    }
    let role = classify_role(&payload, entity_tag, resource_tag);
    let kind = field_kind_of(role, mutable);
    ItemFieldData { kind, field_type: payload }
}

/// Classifies every field of an item in declaration order, taking the role
/// tags off the declaration.
pub fn extract_field_data(fields: &mut Vec<FieldDecl>) -> (r: Vec<ItemFieldData>)
    ensures
        classified(r@, old(fields)@),
        untagged(final(fields)@, old(fields)@),
{
    let ghost fields0 = fields@;
    let mut r: Vec<ItemFieldData> = Vec::new();
    let mut i: usize = 0;
    while i < fields.len()
        invariant
            i <= fields@.len(),
            fields@.len() == fields0.len(),
            r@.len() == i,
            forall|j: int|
                0 <= j < i ==> {
                    &&& (#[trigger] r@[j]).kind == field_kind(fields0[j])
                    &&& r@[j].field_type@ == fields0[j].ty.payload()
                },
            forall|j: int|
                0 <= j < i ==> {
                    &&& (#[trigger] fields@[j]).ident == fields0[j].ident
                    &&& fields@[j].ty == fields0[j].ty
                    &&& fields@[j].attrs@ == untagged_attrs(fields0[j].attrs@)
                },
            forall|j: int| i <= j < fields@.len() ==> #[trigger] fields@[j] == fields0[j],
        decreases fields@.len() - i,
    {
        let d = classify_field(&mut fields[i]);
        r.push(d);
        i = i + 1;
    }
    r
}

} // verus!
