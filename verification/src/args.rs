//! What a model declares: the arguments on the struct and on each of its fields.
use crate::error::Error;
use crate::expr::{Expr, ExprView};
use crate::text::str_eq;
use crate::ty::{opt_text, RedbType, Type, TypeClass, TypeView};
use vstd::prelude::*;
use vstd::string::*;

verus! {

/// The kind of table that a model is stored in.
#[derive(Clone, Copy, Debug, PartialEq, Eq, Structural)]
pub enum ModelTableType {
    /// At most one value for each key.
    Table,
    /// Any number of values for each key.
    Multimap,
}

impl Default for ModelTableType {
    fn default() -> (kind: Self)
        ensures
            kind == ModelTableType::Table,
    {
        ModelTableType::Table
    }
}

impl ModelTableType {
    /// The kind that an annotation value names, if it names one.
    pub open spec fn named_by(text: Seq<char>) -> Option<ModelTableType> {
        if text == "table"@ {
            Some(ModelTableType::Table)
        } else if text == "multimap"@ {
            Some(ModelTableType::Multimap)
        } else {
            None
        }
    }

    /// Reads an annotation value as a table kind: `table` or `multimap`. Any
    /// other value is an invalid configuration.
    pub fn from_meta(text: &str) -> (r: Result<ModelTableType, Error>)
        ensures
            r == match ModelTableType::named_by(text@) {
                Some(kind) => Ok::<ModelTableType, Error>(kind),
                None => Err(Error::InvalidConfiguration),
            },
    {
        if str_eq(text, "table") {
            Ok(ModelTableType::Table)
        } else if str_eq(text, "multimap") {
            Ok(ModelTableType::Multimap)
        } else {
            Err(Error::InvalidConfiguration)
        }
    }
}

/// The group that a field of an entry belongs to.
#[derive(Clone, Copy, Debug, PartialEq, Eq, Structural)]
pub enum EntryPosition {
    Key,
    Value,
}

impl EntryPosition {
    /// The group that an annotation value names, if it names one.
    pub open spec fn named_by(text: Seq<char>) -> Option<EntryPosition> {
        if text == "key"@ {
            Some(EntryPosition::Key)
        } else if text == "value"@ {
            Some(EntryPosition::Value)
        } else {
            None
        }
    }

    /// Reads an annotation value as a group: `key` or `value`. Any other value
    /// is an invalid configuration.
    pub fn from_meta(text: &str) -> (r: Result<EntryPosition, Error>)
        ensures
            r == match EntryPosition::named_by(text@) {
                Some(position) => Ok::<EntryPosition, Error>(position),
                None => Err(Error::InvalidConfiguration),
            },
    {
        if str_eq(text, "key") {
            Ok(EntryPosition::Key)
        } else if str_eq(text, "value") {
            Ok(EntryPosition::Value)
        } else {
            Err(Error::InvalidConfiguration)
        }
    }
}

/// The group that a variable of a model belongs to.
#[derive(Clone, Copy, Debug, PartialEq, Eq, Structural)]
pub enum VariablePosition {
    Key,
    Value,
}

impl EntryPosition {
    /// The same group, as the position of a variable.
    pub open spec fn variable(self) -> VariablePosition {
        match self {
            EntryPosition::Key => VariablePosition::Key,
            EntryPosition::Value => VariablePosition::Value,
        }
    }
}

/// A field as the model itself declares it: its name, its type and its group.
#[derive(Debug, PartialEq, Eq)]
pub struct VariableArgs {
    pub ident: Option<String>,
    pub ty: Type,
    /// The position of the variable in the entry.
    pub position: VariablePosition,
}

/// What a [`VariableArgs`] stands for in contracts.
pub struct VariableArgsView {
    pub ident: Option<Seq<char>>,
    pub ty: TypeView,
    pub position: VariablePosition,
}

impl View for VariableArgs {
    type V = VariableArgsView;

    open spec fn view(&self) -> VariableArgsView {
        VariableArgsView { ident: opt_text(self.ident), ty: self.ty@, position: self.position }
    }
}

/// The views of a sequence of variables.
pub open spec fn variable_views(fields: Seq<VariableArgs>) -> Seq<VariableArgsView> {
    fields.map_values(|f: VariableArgs| f@)
}

/// The arguments declared on one field of a model.
#[derive(Debug, PartialEq, Eq)]
pub struct EntryArgs {
    ident: Option<String>,
    ty: Type,
    /// Whether the field is part of the key or of the value.
    position: EntryPosition,
    /// The type declared in the table definition, where it is not the field's own.
    redb_type: Option<RedbType>,
    /// How to get the field from a stored value, where the default will not do.
    from: Option<Expr>,
    /// How to get the stored value from the field, where the default will not do.
    into: Option<Expr>,
}

/// What an [`EntryArgs`] stands for in contracts.
pub struct EntryArgsView {
    pub ident: Option<Seq<char>>,
    pub ty: TypeView,
    pub position: EntryPosition,
    pub redb_type: Option<TypeView>,
    pub from: Option<ExprView>,
    pub into: Option<ExprView>,
}

impl View for EntryArgs {
    type V = EntryArgsView;

    closed spec fn view(&self) -> EntryArgsView {
        EntryArgsView {
            ident: opt_text(self.ident),
            ty: self.ty@,
            position: self.position,
            redb_type: match self.redb_type {
                Some(t) => Some(t@),
                None => None,
            },
            from: match self.from {
                Some(e) => Some(e@),
                None => None,
            },
            into: match self.into {
                Some(e) => Some(e@),
                None => None,
            },
        }
    }
}

/// The views of a sequence of entries.
pub open spec fn entry_views(fields: Seq<EntryArgs>) -> Seq<EntryArgsView> {
    fields.map_values(|f: EntryArgs| f@)
}

impl EntryArgsView {
    /// The type declared in the table definition: the override, or else the
    /// field's own type.
    pub open spec fn redb_ty(self) -> TypeView {
        match self.redb_type {
            Some(t) => t,
            None => self.ty,
        }
    }

    /// The type under which the field is stored.
    pub open spec fn storage_ty(self) -> TypeView {
        self.redb_ty().storage_form()
    }

    /// The type of the stored value in the table definition: a borrow in it
    /// lives for the whole process.
    pub open spec fn schema_ty(self) -> TypeView {
        self.storage_ty().with_lifetime("static"@)
    }

    /// Whether the default conversion hands out the field as a borrow of itself.
    pub open spec fn lends(self) -> bool {
        &&& self.into is None
        &&& self.storage_ty() == self.ty
        &&& !(self.ty is Reference)
        &&& self.ty.classify() != TypeClass::PrimitiveCopy
    }

    /// The type of the value that is handed to the table for a borrowed model: a
    /// borrow in it lives as long as the model is borrowed.
    pub open spec fn ref_ty(self) -> TypeView {
        if self.lends() {
            TypeView::Reference { lifetime: Some("a"@), mutable: false, elem: self.ty.text() }
        } else {
            self.storage_ty().with_lifetime("a"@)
        }
    }

    /// The field as the model itself declares it.
    pub open spec fn variable(self) -> VariableArgsView {
        VariableArgsView { ident: self.ident, ty: self.ty, position: self.position.variable() }
    }

    /// The field's name as an expression.
    pub open spec fn ident_expr(self) -> ExprView {
        ExprView::Path(self.ident.unwrap())
    }

    /// A borrow of the field's name.
    pub open spec fn ident_ref(self) -> ExprView {
        ExprView::Reference(self.ident.unwrap())
    }

    /// The conversion from the stored value to the field. An expression given
    /// for it is taken as it is. Otherwise a value stored under the field's own
    /// type is passed on, a stored borrow is copied into an owned value, and any
    /// other stored value goes through the general value conversion.
    pub open spec fn from_op(self) -> ExprView {
        match self.from {
            Some(e) => e,
            None => if self.storage_ty() == self.ty {
                self.ident_expr()
            } else if self.storage_ty() is Reference {
                ExprView::MethodCall { receiver: self.ident.unwrap(), method: "to_owned"@ }
            } else {
                ExprView::MethodCall { receiver: self.ident.unwrap(), method: "into"@ }
            },
        }
    }

    /// The conversion from the borrowed field to the value to store. An
    /// expression given for it is taken as it is. Otherwise a field stored under
    /// its own type is copied out of the borrow if it is a number and passed on
    /// as the borrow if not, a field stored as a borrow is passed on as the
    /// borrow, and any other field goes through the general value conversion.
    pub open spec fn into_op(self) -> ExprView {
        match self.into {
            Some(e) => e,
            None => if self.storage_ty() == self.ty {
                if self.ty.classify() == TypeClass::PrimitiveCopy {
                    ExprView::Deref(self.ident.unwrap())
                } else {
                    self.ident_expr()
                }
            } else if self.storage_ty() is Reference {
                self.ident_expr()
            } else {
                ExprView::MethodCall { receiver: self.ident.unwrap(), method: "into"@ }
            },
        }
    }
}

fn clone_ident(o: &Option<String>) -> (c: Option<String>)
    ensures
        c == *o,
{
    match o {
        Some(s) => Some(s.clone()),
        None => None,
    }
}

fn clone_expr(o: &Option<Expr>) -> (c: Option<Expr>)
    ensures
        c == *o,
{
    match o {
        Some(e) => Some(e.clone()),
        None => None,
    }
}

impl Clone for EntryArgs {
    fn clone(&self) -> (c: Self)
        ensures
            c@ == self@,
    {
        EntryArgs {
            ident: clone_ident(&self.ident),
            ty: self.ty.clone(),
            position: self.position,
            redb_type: match &self.redb_type {
                Some(t) => Some(t.clone()),
                None => None,
            },
            from: clone_expr(&self.from),
            into: clone_expr(&self.into),
        }
    }
}

impl EntryArgs {
    /// The arguments of one field.
    pub fn new(
        ident: Option<String>,
        ty: Type,
        position: EntryPosition,
        redb_type: Option<RedbType>,
        from: Option<Expr>,
        into: Option<Expr>,
    ) -> (args: EntryArgs)
        ensures
            args@ == (EntryArgsView {
                ident: opt_text(ident),
                ty: ty@,
                position,
                redb_type: match redb_type {
                    Some(t) => Some(t@),
                    None => None,
                },
                from: match from {
                    Some(e) => Some(e@),
                    None => None,
                },
                into: match into {
                    Some(e) => Some(e@),
                    None => None,
                },
            }),
    {
        EntryArgs { ident, ty, position, redb_type, from, into }
    }

    /// Whether the field is part of the key or of the value.
    pub fn position(&self) -> (position: &EntryPosition)
        ensures
            *position == self@.position,
    {
        &self.position
    }

    /// The field's name within the model.
    pub fn ident(&self) -> (ident: &String)
        requires
            self@.ident is Some,
        ensures
            Some(ident@) == self@.ident,
    {
        self.ident.as_ref().unwrap()
    }

    /// Whether the field has a name.
    pub fn is_named(&self) -> (named: bool)
        ensures
            named == (self@.ident is Some),
    {
        self.ident.is_some()
    }

    /// A borrow of the field's name, as an expression.
    pub fn ident_ref(&self) -> (e: Expr)
        requires
            self@.ident is Some,
        ensures
            e@ == self@.ident_ref(),
    {
        Expr::Reference(self.ident().clone())
    }

    /// The field's name as an expression.
    pub fn ident_expr(&self) -> (e: Expr)
        requires
            self@.ident is Some,
        ensures
            e@ == self@.ident_expr(),
    {
        Expr::Path(self.ident().clone())
    }

    /// The type of the field within the model.
    pub fn model_ty(&self) -> (ty: &Type)
        ensures
            ty@ == self@.ty,
    {
        &self.ty
    }

    /// The type to declare for the field in the table definition.
    pub fn redb_ty(&self) -> (ty: &Type)
        ensures
            ty@ == self@.redb_ty(),
    {
        match &self.redb_type {
            Some(ty) => ty.deref(),
            None => &self.ty,
        }
    }

    /// The type of the stored value in the table definition.
    pub fn schema_ty(&self) -> (ty: Type)
        ensures
            ty@ == self@.schema_ty(),
    {
        self.redb_ty().storage_form().with_lifetime("static")
    }

    /// The type of the value that is handed to the table for a borrowed model.
    pub fn ref_ty(&self) -> (ty: Type)
        ensures
            ty@ == self@.ref_ty(),
    {
        let stored = self.redb_ty().storage_form();
        let lends = self.into.is_none() && stored.same(&self.ty) && !self.ty.is_reference() && (
        match self.ty.classify() {
            TypeClass::PrimitiveCopy => false,
            _ => true,
        });
        if lends {
            Type::Reference {
                lifetime: Some(String::from_str("a")),
                mutable: false,
                elem: self.ty.text(),
            }
        } else {
            stored.with_lifetime("a")
        }
    }

    /// The field as the model itself declares it.
    pub fn variable(&self) -> (v: VariableArgs)
        ensures
            v@ == self@.variable(),
    {
        VariableArgs {
            ident: clone_ident(&self.ident),
            ty: self.ty.clone(),
            position: match self.position {
                EntryPosition::Key => VariablePosition::Key,
                EntryPosition::Value => VariablePosition::Value,
            },
        }
    }

    /// The conversion of the field from its stored value.
    pub fn from_op(&self) -> (e: Expr)
        requires
            self@.from is None ==> self@.ident is Some,
        ensures
            e@ == self@.from_op(),
    {
        match &self.from {
            Some(e) => e.clone(),
            None => {
                let stored = self.redb_ty().storage_form();
                if stored.same(&self.ty) {
                    self.ident_expr()
                } else if stored.is_reference() {
                    Expr::method_call(self.ident().as_str(), "to_owned")
                } else {
                    Expr::method_call(self.ident().as_str(), "into")
                }
            },
        }
    }

    /// The conversion of the borrowed field into the value to store.
    pub fn into_op(&self) -> (e: Expr)
        requires
            self@.into is None ==> self@.ident is Some,
        ensures
            e@ == self@.into_op(),
    {
        match &self.into {
            Some(e) => e.clone(),
            None => {
                let stored = self.redb_ty().storage_form();
                if stored.same(&self.ty) {
                    match self.ty.classify() {
                        TypeClass::PrimitiveCopy => Expr::Deref(self.ident().clone()),
                        _ => self.ident_expr(),
                    }
                } else if stored.is_reference() {
                    self.ident_expr()
                } else {
                    Expr::method_call(self.ident().as_str(), "into")
                }
            },
        }
    }
}

/// The body of the item that a model is derived for.
#[derive(Debug, PartialEq, Eq)]
pub enum Data {
    /// An enum: it has no fields to store.
    Enum,
    /// A struct with its fields in the order of their declaration.
    Struct(Vec<EntryArgs>),
}

impl Data {
    /// The fields, if the item is a struct.
    pub open spec fn fields(self) -> Option<Seq<EntryArgsView>> {
        match self {
            Data::Enum => None,
            Data::Struct(fields) => Some(entry_views(fields@)),
        }
    }

    /// Takes the fields out of a struct; an enum has none to give.
    pub fn take_struct(self) -> (fields: Option<Vec<EntryArgs>>)
        ensures
            match fields {
                Some(f) => self.fields() == Some(entry_views(f@)),
                None => self.fields() is None,
            },
    {
        match self {
            Data::Enum => None,
            Data::Struct(fields) => Some(fields),
        }
    }
}

/// The arguments declared on a model.
#[derive(Debug, PartialEq, Eq)]
pub struct ModelArgs {
    pub ident: String,
    pub data: Data,
    /// The kind of table; a plain table if none is given.
    pub table_type: Option<ModelTableType>,
    /// The name of the table; the name of the struct if none is given.
    pub name: Option<String>,
    /// Whether to generate the conversions between the model and its entry.
    pub impl_ext: Option<bool>,
    /// Whether to generate `From` for the model. Builds on `impl_ext`.
    pub impl_from: Option<bool>,
}

/// What a [`ModelArgs`] stands for in contracts.
pub struct ModelArgsView {
    pub ident: Seq<char>,
    pub data: Option<Seq<EntryArgsView>>,
    pub table_type: Option<ModelTableType>,
    pub name: Option<Seq<char>>,
    pub impl_ext: Option<bool>,
    pub impl_from: Option<bool>,
}

impl View for ModelArgs {
    type V = ModelArgsView;

    open spec fn view(&self) -> ModelArgsView {
        ModelArgsView {
            ident: self.ident@,
            data: self.data.fields(),
            table_type: self.table_type,
            name: opt_text(self.name),
            impl_ext: self.impl_ext,
            impl_from: self.impl_from,
        }
    }
}

impl ModelArgsView {
    /// The name of the table: the one given, or else the name of the struct.
    pub open spec fn table_name(self) -> Seq<char> {
        match self.name {
            Some(name) => name,
            None => self.ident,
        }
    }

    /// The kind of the table: the one given, or else a plain table.
    pub open spec fn table_kind(self) -> ModelTableType {
        match self.table_type {
            Some(kind) => kind,
            None => ModelTableType::Table,
        }
    }
}

} // verus!
