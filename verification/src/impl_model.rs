//! The table definition of a model, as source text.
use crate::args::EntryArgsView;
use crate::model::{literal_text, string_literal, table_type_text, ModelMeta, ModelMetaView};
use crate::var::{schema_types, ValueMeta};
use vstd::prelude::*;
use vstd::string::*;

verus! {

/// The implementation of the table definition for a model: the type of the
/// definition, and the definition itself under the name of the table.
pub open spec fn impl_model_text(
    m: ModelMetaView,
    k: Seq<EntryArgsView>,
    v: Seq<EntryArgsView>,
) -> Seq<char> {
    "#[automatically_derived]\n"@
        + "impl<'a> Model<'a> for "@ + m.ident + " {\n"@
        + "    type TableType = "@ + table_type_text(m.table_ty, schema_types(k), schema_types(v))
        + ";\n"@
        + "    const DEFINITION: Self::TableType = <"@
        + table_type_text(m.table_ty, schema_types(k), schema_types(v)) + ">::new("@
        + literal_text(m.name) + ");\n"@
        + "}\n"@
}

/// Implements the table definition for the model.
pub fn impl_model(m: &ModelMeta, k: &ValueMeta, v: &ValueMeta) -> (out: String)
    ensures
        out@ == impl_model_text(m@, k@, v@),
{
    let table = m.redb_ty(&k.redb_ty(), &v.redb_ty());
    let name = string_literal(m.name());
    let mut out = String::from_str("#[automatically_derived]\n");
    out.append("impl<'a> Model<'a> for ");
    out.append(m.ident().as_str());
    out.append(" {\n");
    out.append("    type TableType = ");
    out.append(table.as_str());
    out.append(";\n");
    out.append("    const DEFINITION: Self::TableType = <");
    out.append(table.as_str());
    out.append(">::new(");
    out.append(name.as_str());
    out.append(");\n");
    out.append("}\n");
    out
}

} // verus!
