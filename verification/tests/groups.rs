//! Groups of fields and the variables they merge into.
use redb_model::derive::partition;
use redb_model::text::{join, str_eq, tuple};
use redb_model::var::{borrows, clones, list, owned};
use redb_model::{
    CompositeVariable, EntryArgs, EntryPosition, Error, Expr, GroupType, RedbType, Type, ValueMeta,
    VariableArgs, VariablePosition,
};

fn entry(name: &str, ty: &str, position: EntryPosition) -> EntryArgs {
    EntryArgs::new(Some(name.to_string()), Type::plain(ty), position, None, None, None)
}

fn variable(name: Option<&str>, ty: &str) -> VariableArgs {
    VariableArgs { ident: name.map(|n| n.to_string()), ty: Type::plain(ty), position: VariablePosition::Key }
}

fn strings(items: &[&str]) -> Vec<String> {
    items.iter().map(|s| s.to_string()).collect()
}

#[test]
fn items_are_joined_with_a_separator() {
    assert_eq!(join(&strings(&[]), ", "), "");
    assert_eq!(join(&strings(&["a"]), ", "), "a");
    assert_eq!(join(&strings(&["a", "b"]), ", "), "a, b");
    assert_eq!(join(&strings(&["a", "", "c"]), "-"), "a--c");
    assert_eq!(join(&strings(&["a", "b", "c"]), ""), "abc");
}

#[test]
fn one_item_is_no_tuple() {
    assert_eq!(tuple(&strings(&[])), "()");
    assert_eq!(tuple(&strings(&["a"])), "a");
    assert_eq!(tuple(&strings(&["a", "b"])), "(a, b)");
    assert_eq!(tuple(&strings(&["a", "b", "c"])), "(a, b, c)");
}

#[test]
fn slices_are_compared_by_their_characters() {
    assert!(str_eq("", ""));
    assert!(str_eq("key", "key"));
    assert!(!str_eq("key", "Key"));
    assert!(!str_eq("key", "keys"));
}

#[test]
fn a_single_field_keeps_its_type() {
    let group = ValueMeta::new(vec![entry("id", "u32", EntryPosition::Key)]);
    assert_eq!(group.len(), 1);
    assert_eq!(group.model_ty(), GroupType { elems: vec![Type::plain("u32")] });
    assert_eq!(group.model_ty().text(), "u32");
    assert_eq!(group.redb_ty().text(), "u32");
    assert_eq!(group.ref_ty().text(), "u32");
    assert_eq!(group.composite_idents(), "id");
    assert_eq!(group.idents(), vec!["id".to_string()]);
}

#[test]
fn several_fields_become_a_tuple_in_their_order() {
    let group = ValueMeta::new(vec![
        entry("a", "u32", EntryPosition::Value),
        entry("b", "String", EntryPosition::Value),
        entry("c", "[u8; 4]", EntryPosition::Value),
    ]);
    assert_eq!(group.len(), 3);
    assert_eq!(group.model_ty().text(), "(u32, String, [u8; 4])");
    assert_eq!(group.redb_ty().text(), "(u32, &'static str, [u8; 4])");
    assert_eq!(group.ref_ty().text(), "(u32, &'a str, &'a [u8; 4])");
    assert_eq!(group.composite_idents(), "(a, b, c)");
    assert_eq!(group.idents(), strings(&["a", "b", "c"]));
    assert_eq!(list(&group), "a, b, c");
    assert_eq!(borrows(&group), "(&self.a, &self.b, &self.c)");
    assert_eq!(owned(&group), "(self.a, self.b, self.c)");
    assert_eq!(clones(&group), "(self.a.clone(), self.b.clone(), self.c.clone())");
    assert_eq!(
        group.from_methods(),
        vec![Expr::Path("a".to_string()), Expr::method_call("b", "to_owned"), Expr::Path("c".to_string())]
    );
    assert_eq!(
        group.into_methods(),
        vec![Expr::Deref("a".to_string()), Expr::Path("b".to_string()), Expr::Path("c".to_string())]
    );
}

#[test]
fn no_field_is_the_unit() {
    let group = ValueMeta::new(vec![]);
    assert_eq!(group.len(), 0);
    assert!(group.is_named());
    assert_eq!(group.model_ty().text(), "()");
    assert_eq!(group.redb_ty().text(), "()");
    assert_eq!(group.ref_ty().text(), "()");
    assert_eq!(group.composite_idents(), "()");
    assert_eq!(list(&group), "");
    assert_eq!(borrows(&group), "()");
    assert_eq!(owned(&group), "()");
    assert_eq!(clones(&group), "()");
    assert_eq!(group.from_methods(), vec![]);
    assert_eq!(group.into_methods(), vec![]);
}

#[test]
fn swapped_fields_give_another_tuple() {
    let ab = ValueMeta::new(vec![entry("a", "u32", EntryPosition::Key), entry("b", "u64", EntryPosition::Key)]);
    let ba = ValueMeta::new(vec![entry("b", "u64", EntryPosition::Key), entry("a", "u32", EntryPosition::Key)]);
    assert_ne!(ab.model_ty(), ba.model_ty());
    assert_ne!(ab.redb_ty(), ba.redb_ty());
    assert_ne!(ab.ref_ty(), ba.ref_ty());
    assert_eq!(ab.model_ty().text(), "(u32, u64)");
    assert_eq!(ba.model_ty().text(), "(u64, u32)");
    assert_eq!(ab.composite_idents(), "(a, b)");
    assert_eq!(ba.composite_idents(), "(b, a)");
}

#[test]
fn merged_groups_keep_the_key_first() {
    let k = ValueMeta::new(vec![entry("k0", "u8", EntryPosition::Key), entry("k1", "u8", EntryPosition::Key)]);
    let v = ValueMeta::new(vec![entry("v0", "u8", EntryPosition::Value)]);
    let kv = ValueMeta::new_merged(&k, &v);
    assert_eq!(kv.idents(), strings(&["k0", "k1", "v0"]));
    assert_eq!(kv.len(), 3);
    let vk = ValueMeta::new_merged(&v, &k);
    assert_eq!(vk.idents(), strings(&["v0", "k0", "k1"]));
    let none = ValueMeta::new_merged(&ValueMeta::new(vec![]), &ValueMeta::new(vec![]));
    assert_eq!(none.len(), 0);
}

#[test]
fn fields_are_parted_by_their_position() {
    let fields = vec![
        entry("v0", "u8", EntryPosition::Value),
        entry("k0", "u8", EntryPosition::Key),
        entry("v1", "u8", EntryPosition::Value),
        entry("k1", "u8", EntryPosition::Key),
        entry("k2", "u8", EntryPosition::Key),
    ];
    let (k, v) = partition(fields);
    assert_eq!(ValueMeta::new(k).idents(), strings(&["k0", "k1", "k2"]));
    assert_eq!(ValueMeta::new(v).idents(), strings(&["v0", "v1"]));
    let (k, v) = partition(vec![]);
    assert!(k.is_empty() && v.is_empty());
    let (k, v) = partition(vec![entry("v", "u8", EntryPosition::Value)]);
    assert!(k.is_empty());
    assert_eq!(v.len(), 1);
}

#[test]
fn a_group_with_an_unnamed_field_is_not_named() {
    let unnamed = EntryArgs::new(None, Type::plain("u8"), EntryPosition::Key, None, None, None);
    let group = ValueMeta::new(vec![entry("a", "u8", EntryPosition::Key), unnamed]);
    assert!(!group.is_named());
    assert_eq!(group.variable().err(), Some(Error::UnsupportedShape));
    // The types do not depend on the names.
    assert_eq!(group.model_ty().text(), "(u8, u8)");
    let named = ValueMeta::new(vec![entry("a", "u8", EntryPosition::Key)]);
    assert!(named.is_named());
    assert!(named.variable().is_ok());
}

#[test]
fn a_group_merges_into_its_variable() {
    let group = ValueMeta::new(vec![entry("a", "u32", EntryPosition::Key), entry("b", "String", EntryPosition::Key)]);
    let var = group.variable().unwrap();
    assert_eq!(var.ty(), &group.model_ty());
    assert_eq!(var.idents(), &group.idents());
    assert_eq!(var.ty_ref().text(), "(&'a u32, &'a String)");
}

#[test]
fn a_single_variable_stays_as_it_is() {
    let var = CompositeVariable::new(vec![variable(Some("id"), "u32")]).unwrap();
    assert_eq!(var.ty().text(), "u32");
    assert_eq!(var.ty_ref().text(), "&'a u32");
    assert_eq!(var.idents(), &strings(&["id"]));
    assert_eq!(var.composite_ident(None), "id");
    assert_eq!(var.composite_ident(Some("&self.")), "&self.id");
}

#[test]
fn several_variables_are_resolved_as_tuples() {
    let var = CompositeVariable::new(vec![variable(Some("a"), "u32"), variable(Some("b"), "String")]).unwrap();
    assert_eq!(var.ty().text(), "(u32, String)");
    assert_eq!(var.ty_ref().text(), "(&'a u32, &'a String)");
    assert_eq!(
        var.ty_ref(),
        &GroupType {
            elems: vec![
                Type::Reference { lifetime: Some("a".to_string()), mutable: false, elem: "u32".to_string() },
                Type::Reference { lifetime: Some("a".to_string()), mutable: false, elem: "String".to_string() },
            ]
        }
    );
    assert_eq!(var.idents(), &strings(&["a", "b"]));
    assert_eq!(var.composite_ident(None), "(a, b)");
    assert_eq!(var.composite_ident(Some("self.")), "(self.a, self.b)");
    assert_eq!(var.composite_ident(Some("")), "(a, b)");
}

#[test]
fn no_variable_is_the_unit() {
    let var = CompositeVariable::new(vec![]).unwrap();
    assert_eq!(var.ty().text(), "()");
    assert_eq!(var.ty_ref().text(), "()");
    assert!(var.idents().is_empty());
    assert_eq!(var.composite_ident(Some("self.")), "()");
}

#[test]
fn a_variable_without_a_name_is_an_unsupported_shape() {
    assert_eq!(CompositeVariable::new(vec![variable(None, "u32")]), Err(Error::UnsupportedShape));
    assert_eq!(
        CompositeVariable::new(vec![variable(Some("a"), "u32"), variable(None, "u32"), variable(Some("c"), "u8")]),
        Err(Error::UnsupportedShape)
    );
}

#[test]
fn a_borrowed_variable_is_borrowed_again() {
    let field = VariableArgs {
        ident: Some("s".to_string()),
        ty: Type::from_meta("&'x str").unwrap(),
        position: VariablePosition::Value,
    };
    let var = CompositeVariable::new(vec![field]).unwrap();
    assert_eq!(var.ty().text(), "&'x str");
    assert_eq!(var.ty_ref().text(), "&'a &'x str");
}

#[test]
fn an_override_shows_in_the_table_only() {
    let f = EntryArgs::new(
        Some("w".to_string()),
        Type::plain("Wrapper"),
        EntryPosition::Value,
        Some(RedbType::from_meta("&[u8]").unwrap()),
        None,
        None,
    );
    let group = ValueMeta::new(vec![f]);
    assert_eq!(group.model_ty().text(), "Wrapper");
    assert_eq!(group.redb_ty().text(), "&'static [u8]");
    assert_eq!(group.ref_ty().text(), "&'a [u8]");
}

#[test]
fn a_group_is_stored_with_the_lifetime_it_is_given() {
    let group = ValueMeta::new(vec![
        entry("a", "u32", EntryPosition::Value),
        entry("b", "String", EntryPosition::Value),
        EntryArgs::new(
            Some("c".to_string()),
            Type::plain("Wrapper"),
            EntryPosition::Value,
            Some(RedbType::from_meta("&'x [u8]").unwrap()),
            None,
            None,
        ),
    ]);
    assert_eq!(group.storage_ty("static").text(), "(u32, &'static str, &'static [u8])");
    assert_eq!(group.storage_ty("a").text(), "(u32, &'a str, &'a [u8])");
    assert_eq!(group.storage_ty("static"), group.redb_ty());
}
