//! What is known of a model's table: its name, its kind and its type.
use crate::args::{ModelArgs, ModelArgsView, ModelTableType};
use crate::ty::{group_text, GroupType, TypeView};
use vstd::prelude::*;
use vstd::string::*;

verus! {

/// How one character is written inside a string literal.
pub open spec fn escaped_char(c: char) -> Seq<char> {
    if c == '"' {
        "\\\""@
    } else if c == '\\' {
        "\\\\"@
    } else if c == '\n' {
        "\\n"@
    } else if c == '\r' {
        "\\r"@
    } else if c == '\t' {
        "\\t"@
    } else {
        seq![c]
    }
}

/// How the first `n` characters of `s` are written inside a string literal.
pub open spec fn escaped_prefix(s: Seq<char>, n: nat) -> Seq<char>
    decreases n,
{
    if n == 0 {
        Seq::empty()
    } else {
        escaped_prefix(s, (n - 1) as nat) + escaped_char(s[n - 1])
    }
}

/// The string literal that denotes `s`.
pub open spec fn literal_text(s: Seq<char>) -> Seq<char> {
    "\""@ + escaped_prefix(s, s.len()) + "\""@
}

/// Writes the string literal that denotes `s`.
pub fn string_literal(s: &str) -> (out: String)
    ensures
        out@ == literal_text(s@),
{
    let n = s.unicode_len();
    let mut body = String::new();
    let mut i: usize = 0;
    while i < n
        invariant
            i <= n,
            n == s@.len(),
            body@ == escaped_prefix(s@, i as nat),
        decreases n - i,
    {
        let c = s.get_char(i);
        if c == '"' {
            body.append("\\\"");
        } else if c == '\\' {
            body.append("\\\\");
        } else if c == '\n' {
            body.append("\\n");
        } else if c == '\r' {
            body.append("\\r");
        } else if c == '\t' {
            body.append("\\t");
        } else {
            let one = s.substring_char(i, i + 1);
            assert(one@ =~= seq![c]);
            body.append(one);
        }
        i = i + 1;
    }
    let mut out = String::from_str("\"");
    out.append(body.as_str());
    out.append("\"");
    out
}

/// The type of the definition of a table of `kind` whose keys are of type `k`
/// and whose values are of type `v`.
pub open spec fn table_type_text(kind: ModelTableType, k: Seq<TypeView>, v: Seq<TypeView>) -> Seq<
    char,
> {
    let head = match kind {
        ModelTableType::Table => "redb::TableDefinition<'a, "@,
        ModelTableType::Multimap => "redb::MultimapTableDefinition<'a, "@,
    };
    head + group_text(k) + ", "@ + group_text(v) + ">"@
}

/// Writes the type of the definition of a table.
pub fn table_type(kind: ModelTableType, k: &GroupType, v: &GroupType) -> (out: String)
    ensures
        out@ == table_type_text(kind, k@, v@),
{
    let mut out = match kind {
        ModelTableType::Table => String::from_str("redb::TableDefinition<'a, "),
        ModelTableType::Multimap => String::from_str("redb::MultimapTableDefinition<'a, "),
    };
    out.append(k.text().as_str());
    out.append(", ");
    out.append(v.text().as_str());
    out.append(">");
    out
}

/// What is known of the table of a model before its fields are looked at.
#[derive(Debug, PartialEq, Eq)]
pub struct ModelMeta {
    ident: String,
    name: String,
    table_ty: ModelTableType,
}

/// What a [`ModelMeta`] stands for in contracts.
pub struct ModelMetaView {
    pub ident: Seq<char>,
    pub name: Seq<char>,
    pub table_ty: ModelTableType,
}

impl View for ModelMeta {
    type V = ModelMetaView;

    closed spec fn view(&self) -> ModelMetaView {
        ModelMetaView { ident: self.ident@, name: self.name@, table_ty: self.table_ty }
    }
}

impl ModelArgsView {
    /// What the arguments say of the table.
    pub open spec fn meta(self) -> ModelMetaView {
        ModelMetaView { ident: self.ident, name: self.table_name(), table_ty: self.table_kind() }
    }
}

impl ModelMeta {
    /// Reads the table's name and kind off the arguments of the model. A table
    /// without a name is named after the struct; one without a kind is a plain
    /// table.
    pub fn new(args: &ModelArgs) -> (meta: ModelMeta)
        ensures
            meta@ == args@.meta(),
    {
        let name = match &args.name {
            Some(name) => name.clone(),
            None => args.ident.clone(),
        };
        let table_ty = match args.table_type {
            Some(kind) => kind,
            None => ModelTableType::default(),
        };
        ModelMeta { ident: args.ident.clone(), name, table_ty }
    }

    /// The name of the struct.
    pub fn ident(&self) -> (ident: &String)
        ensures
            ident@ == self@.ident,
    {
        &self.ident
    }

    /// The name of the table.
    pub fn name(&self) -> (name: &str)
        ensures
            name@ == self@.name,
    {
        self.name.as_str()
    }

    /// The kind of the table.
    pub fn table_ty(&self) -> (kind: ModelTableType)
        ensures
            kind == self@.table_ty,
    {
        self.table_ty
    }

    /// The type of the table's definition, for keys of type `k` and values of
    /// type `v`.
    pub fn redb_ty(&self, k: &GroupType, v: &GroupType) -> (out: String)
        ensures
            out@ == table_type_text(self@.table_ty, k@, v@),
    {
        table_type(self.table_ty, k, v)
    }
}

/// The descriptor that a table is opened against: its name, its kind, and the
/// types of its keys and values as they are stored.
#[derive(Debug, PartialEq, Eq)]
pub struct TableMetadata {
    name: String,
    ty: ModelTableType,
    key: GroupType,
    value: GroupType,
}

/// What a [`TableMetadata`] stands for in contracts.
pub struct TableMetadataView {
    pub name: Seq<char>,
    pub ty: ModelTableType,
    pub key: Seq<TypeView>,
    pub value: Seq<TypeView>,
}

impl View for TableMetadata {
    type V = TableMetadataView;

    closed spec fn view(&self) -> TableMetadataView {
        TableMetadataView { name: self.name@, ty: self.ty, key: self.key@, value: self.value@ }
    }
}

impl TableMetadata {
    /// The descriptor of the table called `name`.
    pub fn new(name: String, ty: ModelTableType, key: GroupType, value: GroupType) -> (table:
        TableMetadata)
        ensures
            table@ == (TableMetadataView { name: name@, ty, key: key@, value: value@ }),
    {
        TableMetadata { name, ty, key, value }
    }

    /// The name of the table.
    pub fn name(&self) -> (name: &str)
        ensures
            name@ == self@.name,
    {
        self.name.as_str()
    }

    /// The kind of the table.
    pub fn ty(&self) -> (kind: ModelTableType)
        ensures
            kind == self@.ty,
    {
        self.ty
    }

    /// The type of the keys as they are stored.
    pub fn key(&self) -> (ty: &GroupType)
        ensures
            ty@ == self@.key,
    {
        &self.key
    }

    /// The type of the values as they are stored.
    pub fn value(&self) -> (ty: &GroupType)
        ensures
            ty@ == self@.value,
    {
        &self.value
    }

    /// The type of the table's definition.
    pub fn type_as_generic(&self) -> (out: String)
        ensures
            out@ == table_type_text(self@.ty, self@.key, self@.value),
    {
        table_type(self.ty, &self.key, &self.value)
    }
}

} // verus!
