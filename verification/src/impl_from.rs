//! `From` for a model, as source text.
use crate::args::EntryArgsView;
use crate::model::{ModelMeta, ModelMetaView};
use crate::ty::group_text;
use crate::var::{model_types, schema_types, ValueMeta};
use vstd::prelude::*;
use vstd::string::*;

verus! {

/// The implementation of `From` for a key and a value of the model.
pub open spec fn impl_from_values_text(
    m: ModelMetaView,
    k: Seq<EntryArgsView>,
    v: Seq<EntryArgsView>,
) -> Seq<char> {
    "#[automatically_derived]\n"@
        + "impl From<("@ + group_text(model_types(k)) + ", "@ + group_text(model_types(v))
        + ")> for "@ + m.ident + " {\n"@
        + "    fn from(values: ("@ + group_text(model_types(k)) + ", "@ + group_text(model_types(v))
        + ")) -> Self {\n"@
        + "        <Self as redb_model::ModelExt>::from_values(values)\n"@
        + "    }\n"@
        + "}\n"@
}

/// Implements `From` for the model's own key and value.
pub fn impl_from_values(m: &ModelMeta, k: &ValueMeta, v: &ValueMeta) -> (out: String)
    ensures
        out@ == impl_from_values_text(m@, k@, v@),
{
    let k_ty = k.model_ty().text();
    let v_ty = v.model_ty().text();
    let mut out = String::from_str("#[automatically_derived]\n");
    out.append("impl From<(");
    out.append(k_ty.as_str());
    out.append(", ");
    out.append(v_ty.as_str());
    out.append(")> for ");
    out.append(m.ident().as_str());
    out.append(" {\n");
    out.append("    fn from(values: (");
    out.append(k_ty.as_str());
    out.append(", ");
    out.append(v_ty.as_str());
    out.append(")) -> Self {\n");
    out.append("        <Self as redb_model::ModelExt>::from_values(values)\n");
    out.append("    }\n");
    out.append("}\n");
    out
}

/// The implementation of `From` for a stored key and a stored value.
pub open spec fn impl_from_guards_text(
    m: ModelMetaView,
    k: Seq<EntryArgsView>,
    v: Seq<EntryArgsView>,
) -> Seq<char> {
    "#[automatically_derived]\n"@
        + "impl<'a> From<(&redb::AccessGuard<'a, "@ + group_text(schema_types(k))
        + ">, &redb::AccessGuard<'a, "@ + group_text(schema_types(v)) + ">)> for "@ + m.ident
        + " {\n"@
        + "    fn from(\n"@
        + "        guards: (&redb::AccessGuard<'a, "@ + group_text(schema_types(k))
        + ">, &redb::AccessGuard<'a, "@ + group_text(schema_types(v)) + ">),\n"@
        + "    ) -> Self {\n"@
        + "        <Self as redb_model::ModelExt>::from_storage_pair(guards)\n"@
        + "    }\n"@
        + "}\n"@
}

/// Implements `From` for a stored key and a stored value.
pub fn impl_from_guards(m: &ModelMeta, k: &ValueMeta, v: &ValueMeta) -> (out: String)
    ensures
        out@ == impl_from_guards_text(m@, k@, v@),
{
    let k_ty = k.redb_ty().text();
    let v_ty = v.redb_ty().text();
    let mut out = String::from_str("#[automatically_derived]\n");
    out.append("impl<'a> From<(&redb::AccessGuard<'a, ");
    out.append(k_ty.as_str());
    out.append(">, &redb::AccessGuard<'a, ");
    out.append(v_ty.as_str());
    out.append(">)> for ");
    out.append(m.ident().as_str());
    out.append(" {\n");
    out.append("    fn from(\n");
    out.append("        guards: (&redb::AccessGuard<'a, ");
    out.append(k_ty.as_str());
    out.append(">, &redb::AccessGuard<'a, ");
    out.append(v_ty.as_str());
    out.append(">),\n");
    out.append("    ) -> Self {\n");
    out.append("        <Self as redb_model::ModelExt>::from_storage_pair(guards)\n");
    out.append("    }\n");
    out.append("}\n");
    out
}

/// The implementations of `From` for a model: one for its own key and value,
/// one for a stored key and value.
pub open spec fn impl_from_text(
    m: ModelMetaView,
    k: Seq<EntryArgsView>,
    v: Seq<EntryArgsView>,
) -> Seq<char> {
    impl_from_values_text(m, k, v) + impl_from_guards_text(m, k, v)
}

/// Implements `From` for the model, mapped to its constructors.
pub fn impl_from(m: &ModelMeta, k: &ValueMeta, v: &ValueMeta) -> (out: String)
    ensures
        out@ == impl_from_text(m@, k@, v@),
{
    let mut out = impl_from_values(m, k, v);
    out.append(impl_from_guards(m, k, v).as_str());
    out
}

} // verus!
