//! The conversions between a model and its entry in the table, as source text.
use crate::args::EntryArgsView;
use crate::expr::exprs_tuple;
use crate::model::{ModelMeta, ModelMetaView};
use crate::ty::group_text;
use crate::var::{
    all_named, borrow_text, borrows, clone_text, clones, from_text, into_text,
    lemma_all_named_merged, list, list_text, model_types, owned, owned_text, pattern_text,
    ref_types, schema_types, ValueMeta,
};
use vstd::prelude::*;
use vstd::string::*;

verus! {

/// The types of the key and of the value in the table definition, as members of
/// the generated implementation.
pub open spec fn def_redb_alias_text(k: Seq<EntryArgsView>, v: Seq<EntryArgsView>) -> Seq<char> {
    "    type RedbKey = "@ + group_text(schema_types(k)) + ";\n"@
        + "    type RedbValue = "@ + group_text(schema_types(v)) + ";\n"@
}

/// Defines the types of the key and of the value in the table definition.
pub fn def_redb_alias(k: &ValueMeta, v: &ValueMeta) -> (out: String)
    ensures
        out@ == def_redb_alias_text(k@, v@),
{
    let k_ty = k.redb_ty().text();
    let v_ty = v.redb_ty().text();
    let mut out = String::from_str("    type RedbKey = ");
    out.append(k_ty.as_str());
    out.append(";\n");
    out.append("    type RedbValue = ");
    out.append(v_ty.as_str());
    out.append(";\n");
    out
}

/// The types of the key and of the value within the model, as members of the
/// generated implementation.
pub open spec fn def_model_alias_text(k: Seq<EntryArgsView>, v: Seq<EntryArgsView>) -> Seq<char> {
    "    type ModelKey = "@ + group_text(model_types(k)) + ";\n"@
        + "    type ModelValue = "@ + group_text(model_types(v)) + ";\n"@
}

/// Defines the types of the key and of the value within the model.
pub fn def_model_alias(k: &ValueMeta, v: &ValueMeta) -> (out: String)
    ensures
        out@ == def_model_alias_text(k@, v@),
{
    let k_ty = k.model_ty().text();
    let v_ty = v.model_ty().text();
    let mut out = String::from_str("    type ModelKey = ");
    out.append(k_ty.as_str());
    out.append(";\n");
    out.append("    type ModelValue = ");
    out.append(v_ty.as_str());
    out.append(";\n");
    out
}

/// The types of the key and of the value that a borrowed model hands to the
/// table, as members of the generated implementation.
pub open spec fn def_ref_alias_text(k: Seq<EntryArgsView>, v: Seq<EntryArgsView>) -> Seq<char> {
    "    type KeyRef = "@ + group_text(ref_types(k)) + ";\n"@
        + "    type ValueRef = "@ + group_text(ref_types(v)) + ";\n"@
}

/// Defines the types of the key and of the value that a borrowed model hands to
/// the table.
pub fn def_ref_alias(k: &ValueMeta, v: &ValueMeta) -> (out: String)
    ensures
        out@ == def_ref_alias_text(k@, v@),
{
    let k_ty = k.ref_ty().text();
    let v_ty = v.ref_ty().text();
    let mut out = String::from_str("    type KeyRef = ");
    out.append(k_ty.as_str());
    out.append(";\n");
    out.append("    type ValueRef = ");
    out.append(v_ty.as_str());
    out.append(";\n");
    out
}

/// The constructor from a key and a value of the model: it binds the names of
/// the fields to the slots of the two in order and builds the model from them.
pub open spec fn def_from_values_text(
    m: ModelMetaView,
    k: Seq<EntryArgsView>,
    v: Seq<EntryArgsView>,
) -> Seq<char> {
    "    fn from_values(values: (Self::ModelKey, Self::ModelValue)) -> Self {\n"@
        + "        let ("@ + pattern_text(k) + ", "@ + pattern_text(v)
        + ") = (values.0, values.1);\n"@
        + "        "@ + m.ident + " { "@ + list_text(k + v) + " }\n"@
        + "    }\n"@
}

/// Defines the constructor of the model from its own key and value.
pub fn def_from_values(m: &ModelMeta, k: &ValueMeta, v: &ValueMeta) -> (out: String)
    requires
        all_named(k@),
        all_named(v@),
    ensures
        out@ == def_from_values_text(m@, k@, v@),
{
    let kv = ValueMeta::new_merged(k, v);
    let k_pattern = k.composite_idents();
    let v_pattern = v.composite_idents();
    proof {
        lemma_all_named_merged(k@, v@);
    }
    let mut out = String::from_str(
        "    fn from_values(values: (Self::ModelKey, Self::ModelValue)) -> Self {\n",
    );
    out.append("        let (");
    out.append(k_pattern.as_str());
    out.append(", ");
    out.append(v_pattern.as_str());
    out.append(") = (values.0, values.1);\n");
    out.append("        ");
    out.append(m.ident().as_str());
    out.append(" { ");
    out.append(list(&kv).as_str());
    out.append(" }\n");
    out.append("    }\n");
    out
}

/// The constructor from a stored key and a stored value: it binds the names of
/// the fields to the slots of the two in order, converts each field from its
/// stored value and builds the model from the results.
pub open spec fn def_from_guards_text(
    m: ModelMetaView,
    k: Seq<EntryArgsView>,
    v: Seq<EntryArgsView>,
) -> Seq<char> {
    "    fn from_storage_pair(\n"@
        + "        values: (&redb::AccessGuard<'a, Self::RedbKey>, &redb::AccessGuard<'a, Self::RedbValue>),\n"@
        + "    ) -> Self {\n"@
        + "        let ("@ + pattern_text(k) + ", "@ + pattern_text(v)
        + ") = (values.0.value(), values.1.value());\n"@
        + "        let "@ + pattern_text(k + v) + " = "@ + from_text(k + v) + ";\n"@
        + "        "@ + m.ident + " { "@ + list_text(k + v) + " }\n"@
        + "    }\n"@
}

/// Defines the constructor of the model from a stored key and a stored value.
pub fn def_from_guards(m: &ModelMeta, k: &ValueMeta, v: &ValueMeta) -> (out: String)
    requires
        all_named(k@),
        all_named(v@),
    ensures
        out@ == def_from_guards_text(m@, k@, v@),
{
    let kv = ValueMeta::new_merged(k, v);
    let k_pattern = k.composite_idents();
    let v_pattern = v.composite_idents();
    proof {
        lemma_all_named_merged(k@, v@);
    }
    let mut out = String::from_str("    fn from_storage_pair(\n");
    out.append(
        "        values: (&redb::AccessGuard<'a, Self::RedbKey>, &redb::AccessGuard<'a, Self::RedbValue>),\n",
    );
    out.append("    ) -> Self {\n");
    out.append("        let (");
    out.append(k_pattern.as_str());
    out.append(", ");
    out.append(v_pattern.as_str());
    out.append(") = (values.0.value(), values.1.value());\n");
    out.append("        let ");
    out.append(kv.composite_idents().as_str());
    out.append(" = ");
    out.append(exprs_tuple(&kv.from_methods()).as_str());
    out.append(";\n");
    out.append("        ");
    out.append(m.ident().as_str());
    out.append(" { ");
    out.append(list(&kv).as_str());
    out.append(" }\n");
    out.append("    }\n");
    out
}

/// The constructor from a key of the model and a stored value: it binds the
/// names of the fields to the slots of the two in order, converts each field of
/// the value from its stored value and builds the model from the results.
pub open spec fn def_from_key_and_guard_text(
    m: ModelMetaView,
    k: Seq<EntryArgsView>,
    v: Seq<EntryArgsView>,
) -> Seq<char> {
    "    fn from_key_and_storage_value(\n"@
        + "        values: (Self::ModelKey, &redb::AccessGuard<'a, Self::RedbValue>),\n"@
        + "    ) -> Self {\n"@
        + "        let ("@ + pattern_text(k) + ", "@ + pattern_text(v)
        + ") = (values.0, values.1.value());\n"@
        + "        let "@ + pattern_text(v) + " = "@ + from_text(v) + ";\n"@
        + "        "@ + m.ident + " { "@ + list_text(k + v) + " }\n"@
        + "    }\n"@
}

/// Defines the constructor of the model from its own key and a stored value.
pub fn def_from_key_and_guard(m: &ModelMeta, k: &ValueMeta, v: &ValueMeta) -> (out: String)
    requires
        all_named(k@),
        all_named(v@),
    ensures
        out@ == def_from_key_and_guard_text(m@, k@, v@),
{
    let kv = ValueMeta::new_merged(k, v);
    let k_pattern = k.composite_idents();
    let v_pattern = v.composite_idents();
    proof {
        lemma_all_named_merged(k@, v@);
    }
    let mut out = String::from_str("    fn from_key_and_storage_value(\n");
    out.append("        values: (Self::ModelKey, &redb::AccessGuard<'a, Self::RedbValue>),\n");
    out.append("    ) -> Self {\n");
    out.append("        let (");
    out.append(k_pattern.as_str());
    out.append(", ");
    out.append(v_pattern.as_str());
    out.append(") = (values.0, values.1.value());\n");
    out.append("        let ");
    out.append(v_pattern.as_str());
    out.append(" = ");
    out.append(exprs_tuple(&v.from_methods()).as_str());
    out.append(";\n");
    out.append("        ");
    out.append(m.ident().as_str());
    out.append(" { ");
    out.append(list(&kv).as_str());
    out.append(" }\n");
    out.append("    }\n");
    out
}

/// The accessor of the key to store: it borrows each field, converts each
/// borrow into the value to store and hands the results out in order.
pub open spec fn def_as_key_text(k: Seq<EntryArgsView>) -> Seq<char> {
    "    fn as_storage_key(&'a self) -> Self::KeyRef {\n"@
        + "        let "@ + pattern_text(k) + " = "@ + borrow_text(k) + ";\n"@
        + "        let "@ + pattern_text(k) + " = "@ + into_text(k) + ";\n"@
        + "        "@ + pattern_text(k) + "\n"@
        + "    }\n"@
}

/// Defines the accessor of the key to store.
pub fn def_as_key(k: &ValueMeta) -> (out: String)
    requires
        all_named(k@),
    ensures
        out@ == def_as_key_text(k@),
{
    let pattern = k.composite_idents();
    let mut out = String::from_str("    fn as_storage_key(&'a self) -> Self::KeyRef {\n");
    out.append("        let ");
    out.append(pattern.as_str());
    out.append(" = ");
    out.append(borrows(k).as_str());
    out.append(";\n");
    out.append("        let ");
    out.append(pattern.as_str());
    out.append(" = ");
    out.append(exprs_tuple(&k.into_methods()).as_str());
    out.append(";\n");
    out.append("        ");
    out.append(pattern.as_str());
    out.append("\n");
    out.append("    }\n");
    out
}

/// The accessor of the value to store: it borrows each field, converts each
/// borrow into the value to store and hands the results out in order.
pub open spec fn def_as_value_text(v: Seq<EntryArgsView>) -> Seq<char> {
    "    fn as_storage_value(&'a self) -> Self::ValueRef {\n"@
        + "        let "@ + pattern_text(v) + " = "@ + borrow_text(v) + ";\n"@
        + "        let "@ + pattern_text(v) + " = "@ + into_text(v) + ";\n"@
        + "        "@ + pattern_text(v) + "\n"@
        + "    }\n"@
}

/// Defines the accessor of the value to store.
pub fn def_as_value(v: &ValueMeta) -> (out: String)
    requires
        all_named(v@),
    ensures
        out@ == def_as_value_text(v@),
{
    let pattern = v.composite_idents();
    let mut out = String::from_str("    fn as_storage_value(&'a self) -> Self::ValueRef {\n");
    out.append("        let ");
    out.append(pattern.as_str());
    out.append(" = ");
    out.append(borrows(v).as_str());
    out.append(";\n");
    out.append("        let ");
    out.append(pattern.as_str());
    out.append(" = ");
    out.append(exprs_tuple(&v.into_methods()).as_str());
    out.append(";\n");
    out.append("        ");
    out.append(pattern.as_str());
    out.append("\n");
    out.append("    }\n");
    out
}

/// The accessor of the entry to store: it borrows each field, converts each
/// borrow into the value to store and hands the results out as the key and the
/// value, each in order.
pub open spec fn def_as_key_and_value_text(
    k: Seq<EntryArgsView>,
    v: Seq<EntryArgsView>,
) -> Seq<char> {
    "    fn as_storage_pair(&'a self) -> (Self::KeyRef, Self::ValueRef) {\n"@
        + "        let "@ + pattern_text(k + v) + " = "@ + borrow_text(k + v) + ";\n"@
        + "        let "@ + pattern_text(k + v) + " = "@ + into_text(k + v) + ";\n"@
        + "        ("@ + pattern_text(k) + ", "@ + pattern_text(v) + ")\n"@
        + "    }\n"@
}

/// Defines the accessor of the entry to store.
pub fn def_as_key_and_value(k: &ValueMeta, v: &ValueMeta) -> (out: String)
    requires
        all_named(k@),
        all_named(v@),
    ensures
        out@ == def_as_key_and_value_text(k@, v@),
{
    let kv = ValueMeta::new_merged(k, v);
    let pattern = kv.composite_idents();
    proof {
        lemma_all_named_merged(k@, v@);
    }
    let mut out = String::from_str(
        "    fn as_storage_pair(&'a self) -> (Self::KeyRef, Self::ValueRef) {\n",
    );
    out.append("        let ");
    out.append(pattern.as_str());
    out.append(" = ");
    out.append(borrows(&kv).as_str());
    out.append(";\n");
    out.append("        let ");
    out.append(pattern.as_str());
    out.append(" = ");
    out.append(exprs_tuple(&kv.into_methods()).as_str());
    out.append(";\n");
    out.append("        (");
    out.append(k.composite_idents().as_str());
    out.append(", ");
    out.append(v.composite_idents().as_str());
    out.append(")\n");
    out.append("    }\n");
    out
}

/// The function that takes the model apart: it hands out the fields of the key
/// and those of the value, each in order.
pub open spec fn def_into_values_text(k: Seq<EntryArgsView>, v: Seq<EntryArgsView>) -> Seq<char> {
    "    fn into_values(self) -> (Self::ModelKey, Self::ModelValue) {\n"@
        + "        ("@ + owned_text(k) + ", "@ + owned_text(v) + ")\n"@
        + "    }\n"@
}

/// Defines the function that takes the model apart into its key and value.
pub fn def_into_values(k: &ValueMeta, v: &ValueMeta) -> (out: String)
    requires
        all_named(k@),
        all_named(v@),
    ensures
        out@ == def_into_values_text(k@, v@),
{
    let mut out = String::from_str(
        "    fn into_values(self) -> (Self::ModelKey, Self::ModelValue) {\n",
    );
    out.append("        (");
    out.append(owned(k).as_str());
    out.append(", ");
    out.append(owned(v).as_str());
    out.append(")\n");
    out.append("    }\n");
    out
}

/// The function that copies the key out of a borrowed model: it clones the
/// fields in order.
pub open spec fn def_clone_key_text(k: Seq<EntryArgsView>) -> Seq<char> {
    "    fn clone_key(&self) -> Self::ModelKey {\n"@
        + "        "@ + clone_text(k) + "\n"@
        + "    }\n"@
}

/// Defines the function that copies the key out of a borrowed model.
pub fn def_clone_key(k: &ValueMeta) -> (out: String)
    requires
        all_named(k@),
    ensures
        out@ == def_clone_key_text(k@),
{
    let mut out = String::from_str("    fn clone_key(&self) -> Self::ModelKey {\n");
    out.append("        ");
    out.append(clones(k).as_str());
    out.append("\n");
    out.append("    }\n");
    out
}

/// The function that copies the value out of a borrowed model: it clones the
/// fields in order.
pub open spec fn def_clone_value_text(v: Seq<EntryArgsView>) -> Seq<char> {
    "    fn clone_value(&self) -> Self::ModelValue {\n"@
        + "        "@ + clone_text(v) + "\n"@
        + "    }\n"@
}

/// Defines the function that copies the value out of a borrowed model.
pub fn def_clone_value(v: &ValueMeta) -> (out: String)
    requires
        all_named(v@),
    ensures
        out@ == def_clone_value_text(v@),
{
    let mut out = String::from_str("    fn clone_value(&self) -> Self::ModelValue {\n");
    out.append("        ");
    out.append(clones(v).as_str());
    out.append("\n");
    out.append("    }\n");
    out
}

/// The implementation of the conversions between a model and its entry: the
/// types of the key and the value on both sides, the three constructors, the
/// three accessors and the three functions that hand out what the model holds.
pub open spec fn impl_model_ext_text(
    m: ModelMetaView,
    k: Seq<EntryArgsView>,
    v: Seq<EntryArgsView>,
) -> Seq<char> {
    "#[automatically_derived]\n"@
        + "impl<'a> redb_model::ModelExt<'a> for "@ + m.ident + " {\n"@
        + def_redb_alias_text(k, v) + def_model_alias_text(k, v) + def_ref_alias_text(k, v)
        + def_from_values_text(m, k, v) + def_from_guards_text(m, k, v)
        + def_from_key_and_guard_text(m, k, v) + def_as_key_text(k) + def_as_value_text(v)
        + def_as_key_and_value_text(k, v) + def_into_values_text(k, v) + def_clone_key_text(k)
        + def_clone_value_text(v) + "}\n"@
}

/// Implements the conversions between the model and its entry in the table.
pub fn impl_model_ext(m: &ModelMeta, k: &ValueMeta, v: &ValueMeta) -> (out: String)
    requires
        all_named(k@),
        all_named(v@),
    ensures
        out@ == impl_model_ext_text(m@, k@, v@),
{
    let mut out = String::from_str("#[automatically_derived]\n");
    out.append("impl<'a> redb_model::ModelExt<'a> for ");
    out.append(m.ident().as_str());
    out.append(" {\n");
    out.append(def_redb_alias(k, v).as_str());
    out.append(def_model_alias(k, v).as_str());
    out.append(def_ref_alias(k, v).as_str());
    out.append(def_from_values(m, k, v).as_str());
    out.append(def_from_guards(m, k, v).as_str());
    out.append(def_from_key_and_guard(m, k, v).as_str());
    out.append(def_as_key(k).as_str());
    out.append(def_as_value(v).as_str());
    out.append(def_as_key_and_value(k, v).as_str());
    out.append(def_into_values(k, v).as_str());
    out.append(def_clone_key(k).as_str());
    out.append(def_clone_value(v).as_str());
    out.append("}\n");
    out
}

} // verus!
