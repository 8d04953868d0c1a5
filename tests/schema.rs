use specs_dsl::{
    classify_field, classify_role, extract_attr, extract_field_data, field_kind_of, get_attr,
    storages, storages_main_views, tuple_inits, Access, FieldDecl, FieldRef, FieldType,
    ItemFieldData, ItemFieldKind, Role, Shape, Storage, StorageKind,
};

fn s(t: &str) -> String {
    t.to_string()
}

fn names(v: &[&str]) -> Vec<String> {
    v.iter().map(|a| s(a)).collect()
}

fn decl(ident: &str, ty: FieldType, attrs: &[&str]) -> FieldDecl {
    FieldDecl { ident: s(ident), ty, attrs: names(attrs) }
}

fn data(kind: ItemFieldKind, ty: &str) -> ItemFieldData {
    ItemFieldData { kind, field_type: s(ty) }
}

fn st(kind: StorageKind, field: usize, access: Access) -> Storage {
    Storage { kind, field, access }
}

#[test]
fn is_mut_holds_for_write_kinds_only() {
    assert!(ItemFieldKind::MutComponent.is_mut());
    assert!(ItemFieldKind::MutResource.is_mut());
    assert!(!ItemFieldKind::Component.is_mut());
    assert!(!ItemFieldKind::Resource.is_mut());
    assert!(!ItemFieldKind::Entity.is_mut());
}

#[test]
fn extract_attr_takes_the_first_match_only() {
    let mut attrs = names(&["doc", "entity", "cfg", "entity"]);
    assert_eq!(extract_attr(&mut attrs, "entity"), Some(1));
    assert_eq!(attrs, names(&["doc", "cfg", "entity"]));
    assert_eq!(extract_attr(&mut attrs, "resource"), None);
    assert_eq!(attrs, names(&["doc", "cfg", "entity"]));
    assert_eq!(get_attr(&attrs, "cfg"), Some(1));
    assert_eq!(get_attr(&attrs, "run"), None);
}

#[test]
fn role_resolution_order() {
    assert_eq!(classify_role(&s("Pos"), false, false), Role::Component);
    assert_eq!(classify_role(&s("Entity"), false, false), Role::Entity);
    assert_eq!(classify_role(&s("Pos"), false, true), Role::Resource);
    assert_eq!(classify_role(&s("Pos"), true, true), Role::Entity);
    assert_eq!(classify_role(&s("Entity"), false, true), Role::Entity);
    assert_eq!(field_kind_of(Role::Entity, true), ItemFieldKind::Entity);
    assert_eq!(field_kind_of(Role::Resource, true), ItemFieldKind::MutResource);
    assert_eq!(field_kind_of(Role::Resource, false), ItemFieldKind::Resource);
    assert_eq!(field_kind_of(Role::Component, true), ItemFieldKind::MutComponent);
}

#[test]
fn classify_field_reads_borrow_and_tags() {
    let mut f = decl("e", FieldType::Shared(s("Entity")), &[]);
    let d = classify_field(&mut f);
    assert_eq!((d.kind, d.field_type.as_str()), (ItemFieldKind::Entity, "Entity"));

    let mut f = decl("e", FieldType::Unique(s("Entity")), &[]);
    assert_eq!(classify_field(&mut f).kind, ItemFieldKind::Entity);

    let mut f = decl("t", FieldType::Unique(s("Time")), &["doc", "resource"]);
    let d = classify_field(&mut f);
    assert_eq!((d.kind, d.field_type.as_str()), (ItemFieldKind::MutResource, "Time"));
    assert_eq!(f.attrs, names(&["doc"]));

    let mut f = decl("c", FieldType::Owned(s("Count")), &["component", "doc"]);
    let d = classify_field(&mut f);
    assert_eq!((d.kind, d.field_type.as_str()), (ItemFieldKind::Component, "Count"));
    assert_eq!(f.attrs, names(&["doc"]));

    let mut f = decl("x", FieldType::Shared(s("Pos")), &["entity", "resource", "component"]);
    assert_eq!(classify_field(&mut f).kind, ItemFieldKind::Entity);
    assert!(f.attrs.is_empty());
}

#[test]
fn extract_field_data_keeps_declaration_order() {
    let mut fields = vec![
        decl("a", FieldType::Shared(s("A")), &[]),
        decl("b", FieldType::Unique(s("B")), &["resource"]),
        decl("c", FieldType::Shared(s("C")), &["entity"]),
    ];
    let d = extract_field_data(&mut fields);
    let kinds: Vec<ItemFieldKind> = d.iter().map(|x| x.kind).collect();
    assert_eq!(
        kinds,
        vec![ItemFieldKind::Component, ItemFieldKind::MutResource, ItemFieldKind::Entity]
    );
    let types: Vec<&str> = d.iter().map(|x| x.field_type.as_str()).collect();
    assert_eq!(types, vec!["A", "B", "C"]);
    assert!(fields.iter().all(|f| f.attrs.is_empty()));
}

#[test]
fn storages_collapse_by_count() {
    assert_eq!(storages(false, &vec![]), Shape::Unit);
    assert_eq!(
        storages(false, &vec![data(ItemFieldKind::Resource, "Time")]),
        Shape::Bare(st(StorageKind::Read, 0, Access::Owned))
    );
    assert_eq!(
        storages(true, &vec![data(ItemFieldKind::MutResource, "Time")]),
        Shape::Bare(st(StorageKind::Write, 0, Access::Unique))
    );
    assert_eq!(
        storages(true, &vec![data(ItemFieldKind::Entity, "Entity")]),
        Shape::Bare(st(StorageKind::Entities, 0, Access::Shared))
    );
}

#[test]
fn order_is_kept_and_permuted_alike() {
    let abc = vec![
        data(ItemFieldKind::Entity, "Entity"),
        data(ItemFieldKind::MutComponent, "B"),
        data(ItemFieldKind::Resource, "C"),
    ];
    assert_eq!(
        storages(true, &abc),
        Shape::Tuple(vec![
            st(StorageKind::Entities, 0, Access::Shared),
            st(StorageKind::WriteStorage, 1, Access::Unique),
            st(StorageKind::Read, 2, Access::Shared),
        ])
    );
    let cab = vec![abc[2].clone(), abc[0].clone(), abc[1].clone()];
    assert_eq!(
        storages(true, &cab),
        Shape::Tuple(vec![
            st(StorageKind::Read, 0, Access::Shared),
            st(StorageKind::Entities, 1, Access::Shared),
            st(StorageKind::WriteStorage, 2, Access::Unique),
        ])
    );
    let v = storages_main_views(&abc);
    assert_eq!(
        v.view_ret,
        Shape::Tuple(vec![FieldRef { field: 0, mutable: false }, FieldRef { field: 2, mutable: false }])
    );
    assert_eq!(
        v.view_mut_ret,
        Shape::Tuple(vec![
            FieldRef { field: 0, mutable: false },
            FieldRef { field: 1, mutable: true },
            FieldRef { field: 2, mutable: false },
        ])
    );

    let fields = vec![
        decl("c", FieldType::Owned(s("C")), &[]),
        decl("a", FieldType::Owned(s("A")), &[]),
    ];
    let inits = tuple_inits(&fields);
    let pairs: Vec<(&str, usize)> = inits.iter().map(|i| (i.field.as_str(), i.position)).collect();
    assert_eq!(pairs, vec![("c", 0), ("a", 1)]);
}

#[test]
fn tuple_round_trip_on_values() {
    let fields = vec![
        decl("pos", FieldType::Owned(s("i32")), &[]),
        decl("vel", FieldType::Owned(s("i32")), &[]),
        decl("mass", FieldType::Owned(s("i32")), &[]),
    ];
    let inits = tuple_inits(&fields);
    let t = [10, 20, 30];
    let record: Vec<(String, i32)> = inits.iter().map(|i| (i.field.clone(), t[i.position])).collect();
    let back: Vec<i32> = fields
        .iter()
        .map(|f| record.iter().find(|(n, _)| n == &f.ident).unwrap().1)
        .collect();
    assert_eq!(back, t.to_vec());
}

#[test]
fn views_never_alias() {
    let fields = vec![
        data(ItemFieldKind::MutComponent, "Pos"),
        data(ItemFieldKind::Component, "Vel"),
        data(ItemFieldKind::MutResource, "Time"),
        data(ItemFieldKind::Entity, "Entity"),
    ];
    let v = storages_main_views(&fields);
    let read: Vec<usize> = match &v.view_ret {
        Shape::Tuple(r) => r.iter().map(|f| f.field).collect(),
        _ => panic!("two read fields make a tuple"),
    };
    assert_eq!(read, vec![1, 3]);
    let written: Vec<usize> = match &v.view_mut_ret {
        Shape::Tuple(r) => r.iter().filter(|f| f.mutable).map(|f| f.field).collect(),
        _ => panic!("four fields make a tuple"),
    };
    assert_eq!(written, vec![0, 2]);
    assert!(read.iter().all(|p| !written.contains(p)));
}

#[test]
fn single_field_views_are_bare() {
    let v = storages_main_views(&vec![data(ItemFieldKind::Component, "Vel")]);
    assert_eq!(v.view_type, Shape::Bare(st(StorageKind::ReadStorage, 0, Access::Shared)));
    assert_eq!(v.view_ret, Shape::Bare(FieldRef { field: 0, mutable: false }));
    assert_eq!(v.view_mut_type, Shape::Unit);
    assert_eq!(v.view_mut_ret, Shape::Unit);

    let v = storages_main_views(&vec![data(ItemFieldKind::MutComponent, "Pos")]);
    assert_eq!(v.view_type, Shape::Unit);
    assert_eq!(v.view_ret, Shape::Unit);
    assert_eq!(v.view_mut_type, Shape::Bare(st(StorageKind::WriteStorage, 0, Access::Unique)));
    assert_eq!(v.view_mut_ret, Shape::Bare(FieldRef { field: 0, mutable: true }));
}

#[test]
fn empty_schema_views_are_unit() {
    let v = storages_main_views(&vec![]);
    assert_eq!(v.view_type, Shape::Unit);
    assert_eq!(v.view_ret, Shape::Unit);
    assert_eq!(v.view_mut_type, Shape::Unit);
    assert_eq!(v.view_mut_ret, Shape::Unit);
}

#[test]
fn all_read_schema_has_unit_mutable_view() {
    let fields = vec![data(ItemFieldKind::Component, "Pos"), data(ItemFieldKind::Component, "Vel")];
    let v = storages_main_views(&fields);
    assert_eq!(v.view_mut_type, Shape::Unit);
    assert_eq!(v.view_mut_ret, Shape::Unit);
    assert_eq!(
        v.view_type,
        Shape::Tuple(vec![
            st(StorageKind::ReadStorage, 0, Access::Shared),
            st(StorageKind::ReadStorage, 1, Access::Shared),
        ])
    );
}

#[test]
fn all_write_schema_has_unit_immutable_view() {
    let fields = vec![
        data(ItemFieldKind::MutComponent, "Pos"),
        data(ItemFieldKind::MutResource, "Time"),
    ];
    let v = storages_main_views(&fields);
    assert_eq!(v.view_type, Shape::Unit);
    assert_eq!(v.view_ret, Shape::Unit);
    assert_eq!(v.view_mut_type, storages(true, &fields));
    assert_eq!(
        v.view_mut_ret,
        Shape::Tuple(vec![FieldRef { field: 0, mutable: true }, FieldRef { field: 1, mutable: true }])
    );
}
