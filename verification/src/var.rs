//! The fields of one group, merged into a single variable.
use crate::args::{
    entry_views, variable_views, EntryArgs, EntryArgsView, VariableArgs, VariableArgsView,
};
use crate::variable::{merged, prefixed, variables_named, CompositeVariable};
use crate::error::Error;
use crate::expr::{expr_texts, expr_views, exprs_tuple, Expr, ExprView};
use crate::text::{join, joined, texts, tuple, tuple_text};
use crate::ty::{type_views, GroupType, Type, TypeView};
use vstd::prelude::*;
use vstd::string::*;

verus! {

/// Whether every field has a name.
pub open spec fn all_named(fields: Seq<EntryArgsView>) -> bool {
    forall|i: int| 0 <= i < fields.len() ==> (#[trigger] fields[i]).ident is Some
}

/// The names of the fields, in order.
pub open spec fn idents_of(fields: Seq<EntryArgsView>) -> Seq<Seq<char>> {
    fields.map_values(|f: EntryArgsView| f.ident.unwrap())
}

/// The types of the fields within the model, in order.
pub open spec fn model_types(fields: Seq<EntryArgsView>) -> Seq<TypeView> {
    fields.map_values(|f: EntryArgsView| f.ty)
}

/// The types under which the fields are stored, in order, with `lifetime` for
/// the lifetime of every borrow.
pub open spec fn storage_types(fields: Seq<EntryArgsView>, lifetime: Seq<char>) -> Seq<TypeView> {
    fields.map_values(|f: EntryArgsView| f.storage_ty().with_lifetime(lifetime))
}

/// The types of the fields in the table definition, in order: the types under
/// which they are stored, with every borrow living for the whole process.
pub open spec fn schema_types(fields: Seq<EntryArgsView>) -> Seq<TypeView> {
    storage_types(fields, "static"@)
}

/// The types of the values handed to the table for a borrowed model, in order.
pub open spec fn ref_types(fields: Seq<EntryArgsView>) -> Seq<TypeView> {
    fields.map_values(|f: EntryArgsView| f.ref_ty())
}

/// The conversions of the fields from their stored values, in order.
pub open spec fn from_ops(fields: Seq<EntryArgsView>) -> Seq<ExprView> {
    fields.map_values(|f: EntryArgsView| f.from_op())
}

/// The conversions of the borrowed fields into the values to store, in order.
pub open spec fn into_ops(fields: Seq<EntryArgsView>) -> Seq<ExprView> {
    fields.map_values(|f: EntryArgsView| f.into_op())
}

/// The pattern that takes a value of the group apart.
pub open spec fn pattern_text(fields: Seq<EntryArgsView>) -> Seq<char> {
    tuple_text(idents_of(fields))
}

/// The names of the fields, separated by commas.
pub open spec fn list_text(fields: Seq<EntryArgsView>) -> Seq<char> {
    joined(idents_of(fields), ", "@)
}

/// The fields converted from their stored values, as one expression.
pub open spec fn from_text(fields: Seq<EntryArgsView>) -> Seq<char> {
    tuple_text(expr_texts(from_ops(fields)))
}

/// The borrowed fields converted into the values to store, as one expression.
pub open spec fn into_text(fields: Seq<EntryArgsView>) -> Seq<char> {
    tuple_text(expr_texts(into_ops(fields)))
}

/// The borrows of the fields of a borrowed model, as one expression.
pub open spec fn borrow_text(fields: Seq<EntryArgsView>) -> Seq<char> {
    tuple_text(prefixed("&self."@, idents_of(fields)))
}

/// The fields of a model that is given up, as one expression.
pub open spec fn owned_text(fields: Seq<EntryArgsView>) -> Seq<char> {
    tuple_text(prefixed("self."@, idents_of(fields)))
}

/// The calls that clone the fields of a model, in order.
pub open spec fn clone_ops(fields: Seq<EntryArgsView>) -> Seq<ExprView> {
    fields.map_values(
        |f: EntryArgsView|
            ExprView::MethodCall { receiver: "self."@ + f.ident.unwrap(), method: "clone"@ },
    )
}

/// The clones of the fields of a model, as one expression.
pub open spec fn clone_text(fields: Seq<EntryArgsView>) -> Seq<char> {
    tuple_text(expr_texts(clone_ops(fields)))
}

/// Two groups whose fields all have names merge into one whose fields all have.
pub proof fn lemma_all_named_merged(a: Seq<EntryArgsView>, b: Seq<EntryArgsView>)
    requires
        all_named(a),
        all_named(b),
    ensures
        all_named(a + b),
{
    assert forall|i: int| 0 <= i < (a + b).len() implies (#[trigger] (a + b)[i]).ident is Some by {
        if i < a.len() {
            assert(a[i].ident is Some);
        } else {
            assert(b[i - a.len()].ident is Some);
        }
    }
}

/// The fields as the model itself declares them, in order.
pub open spec fn variables_of(fields: Seq<EntryArgsView>) -> Seq<VariableArgsView> {
    fields.map_values(|f: EntryArgsView| f.variable())
}

/// The variable that the fields of a group merge into holds their names and
/// their types within the model.
pub proof fn lemma_merged_fields(fields: Seq<EntryArgsView>)
    ensures
        merged(variables_of(fields)).idents == idents_of(fields),
        merged(variables_of(fields)).ty == model_types(fields),
        variables_named(variables_of(fields)) == all_named(fields),
{
    let vars = variables_of(fields);
    assert(merged(vars).idents =~= idents_of(fields));
    assert(merged(vars).ty =~= model_types(fields));
    if all_named(fields) {
        assert forall|i: int| 0 <= i < vars.len() implies (#[trigger] vars[i]).ident is Some by {
            assert(fields[i].ident is Some);
        }
    }
    if variables_named(vars) {
        assert forall|i: int| 0 <= i < fields.len() implies (#[trigger] fields[i]).ident
            is Some by {
            assert(vars[i].ident is Some);
        }
    }
}

/// The fields of the key or of the value of a model, in the order of their
/// declaration. That order fixes the layout of every tuple made from them.
#[derive(Debug, PartialEq, Eq)]
pub struct ValueMeta(Vec<EntryArgs>);

impl View for ValueMeta {
    type V = Seq<EntryArgsView>;

    closed spec fn view(&self) -> Seq<EntryArgsView> {
        entry_views(self.0@)
    }
}

impl ValueMeta {
    /// The group made of `fields`, in their order.
    pub fn new(fields: Vec<EntryArgs>) -> (group: ValueMeta)
        ensures
            group@ == entry_views(fields@),
    {
        ValueMeta(fields)
    }

    /// The group made of the fields of `a`, followed by those of `b`.
    pub fn new_merged(a: &ValueMeta, b: &ValueMeta) -> (group: ValueMeta)
        ensures
            group@ == a@ + b@,
    {
        let mut fields: Vec<EntryArgs> = Vec::new();
        let mut i: usize = 0;
        while i < a.0.len()
            invariant
                i <= a.0.len(),
                fields@.len() == i,
                forall|j: int| 0 <= j < i ==> (#[trigger] fields@[j])@ == a.0@[j]@,
            decreases a.0.len() - i,
        {
            fields.push(a.0[i].clone());
            i = i + 1;
        }
        let mut k: usize = 0;
        while k < b.0.len()
            invariant
                k <= b.0.len(),
                fields@.len() == a.0.len() + k,
                forall|j: int| 0 <= j < a.0.len() ==> (#[trigger] fields@[j])@ == a.0@[j]@,
                forall|j: int|
                    a.0.len() <= j < a.0.len() + k ==> (#[trigger] fields@[j])@ == b.0@[j
                        - a.0.len()]@,
            decreases b.0.len() - k,
        {
            fields.push(b.0[k].clone());
            k = k + 1;
        }
        assert(entry_views(fields@) =~= a@ + b@);
        ValueMeta(fields)
    }

    /// The number of fields in the group.
    pub fn len(&self) -> (n: usize)
        ensures
            n == self@.len(),
    {
        self.0.len()
    }

    /// Whether every field of the group has a name.
    pub fn is_named(&self) -> (named: bool)
        ensures
            named == all_named(self@),
    {
        let mut i: usize = 0;
        while i < self.0.len()
            invariant
                i <= self.0.len(),
                forall|j: int| 0 <= j < i ==> (#[trigger] self@[j]).ident is Some,
            decreases self.0.len() - i,
        {
            if !self.0[i].is_named() {
                assert(self@[i as int].ident is None);
                return false;
            }
            i = i + 1;
        }
        true
    }

    /// Merges the fields of the group into one variable. A field without a
    /// name is an unsupported shape.
    pub fn variable(&self) -> (r: Result<CompositeVariable, Error>)
        ensures
            match r {
                Ok(v) => all_named(self@) && v@ == merged(variables_of(self@)),
                Err(e) => !all_named(self@) && e == Error::UnsupportedShape,
            },
    {
        let mut vars: Vec<VariableArgs> = Vec::new();
        let mut i: usize = 0;
        while i < self.0.len()
            invariant
                i <= self.0.len(),
                vars@.len() == i,
                forall|j: int| 0 <= j < i ==> (#[trigger] vars@[j])@ == self@[j].variable(),
            decreases self.0.len() - i,
        {
            vars.push(self.0[i].variable());
            i = i + 1;
        }
        assert(variable_views(vars@) =~= variables_of(self@));
        proof {
            lemma_merged_fields(self@);
        }
        CompositeVariable::new(vars)
    }

    /// The type of the group within the model.
    pub fn model_ty(&self) -> (ty: GroupType)
        ensures
            ty@ == model_types(self@),
    {
        let mut elems: Vec<Type> = Vec::new();
        let mut i: usize = 0;
        while i < self.0.len()
            invariant
                i <= self.0.len(),
                elems@.len() == i,
                forall|j: int| 0 <= j < i ==> (#[trigger] elems@[j])@ == self@[j].ty,
            decreases self.0.len() - i,
        {
            elems.push(self.0[i].model_ty().clone());
            i = i + 1;
        }
        assert(type_views(elems@) =~= model_types(self@));
        GroupType { elems }
    }

    /// The type under which the group is stored, with `lifetime` for the
    /// lifetime of every borrow in it.
    pub fn storage_ty(&self, lifetime: &str) -> (ty: GroupType)
        ensures
            ty@ == storage_types(self@, lifetime@),
    {
        let mut elems: Vec<Type> = Vec::new();
        let mut i: usize = 0;
        while i < self.0.len()
            invariant
                i <= self.0.len(),
                elems@.len() == i,
                forall|j: int|
                    0 <= j < i ==> (#[trigger] elems@[j])@ == self@[j].storage_ty().with_lifetime(
                        lifetime@,
                    ),
            decreases self.0.len() - i,
        {
            elems.push(self.0[i].redb_ty().storage_form().with_lifetime(lifetime));
            i = i + 1;
        }
        assert(type_views(elems@) =~= storage_types(self@, lifetime@));
        GroupType { elems }
    }

    /// The type of the group in the table definition.
    pub fn redb_ty(&self) -> (ty: GroupType)
        ensures
            ty@ == schema_types(self@),
    {
        self.storage_ty("static")
    }

    /// The type of what is handed to the table for a borrowed model.
    pub fn ref_ty(&self) -> (ty: GroupType)
        ensures
            ty@ == ref_types(self@),
    {
        let mut elems: Vec<Type> = Vec::new();
        let mut i: usize = 0;
        while i < self.0.len()
            invariant
                i <= self.0.len(),
                elems@.len() == i,
                forall|j: int| 0 <= j < i ==> (#[trigger] elems@[j])@ == self@[j].ref_ty(),
            decreases self.0.len() - i,
        {
            elems.push(self.0[i].ref_ty());
            i = i + 1;
        }
        assert(type_views(elems@) =~= ref_types(self@));
        GroupType { elems }
    }

    /// The names of the fields, in order.
    pub fn idents(&self) -> (idents: Vec<String>)
        requires
            all_named(self@),
        ensures
            texts(idents@) == idents_of(self@),
    {
        let mut idents: Vec<String> = Vec::new();
        let mut i: usize = 0;
        while i < self.0.len()
            invariant
                i <= self.0.len(),
                all_named(self@),
                idents@.len() == i,
                forall|j: int| 0 <= j < i ==> Some((#[trigger] idents@[j])@) == self@[j].ident,
            decreases self.0.len() - i,
        {
            assert(self@[i as int].ident is Some);
            idents.push(self.0[i].ident().clone());
            i = i + 1;
        }
        assert(texts(idents@) =~= idents_of(self@));
        idents
    }

    /// The pattern that takes a value of the group apart: the name of its one
    /// field, or the tuple of the names of its fields.
    pub fn composite_idents(&self) -> (pattern: String)
        requires
            all_named(self@),
        ensures
            pattern@ == tuple_text(idents_of(self@)),
    {
        tuple(&self.idents())
    }

    /// The conversions of the fields from their stored values, in order.
    pub fn from_methods(&self) -> (ops: Vec<Expr>)
        requires
            all_named(self@),
        ensures
            expr_views(ops@) == from_ops(self@),
    {
        let mut ops: Vec<Expr> = Vec::new();
        let mut i: usize = 0;
        while i < self.0.len()
            invariant
                i <= self.0.len(),
                all_named(self@),
                ops@.len() == i,
                forall|j: int| 0 <= j < i ==> (#[trigger] ops@[j])@ == self@[j].from_op(),
            decreases self.0.len() - i,
        {
            assert(self@[i as int].ident is Some);
            ops.push(self.0[i].from_op());
            i = i + 1;
        }
        assert(expr_views(ops@) =~= from_ops(self@));
        ops
    }

    /// The conversions of the borrowed fields into the values to store, in order.
    pub fn into_methods(&self) -> (ops: Vec<Expr>)
        requires
            all_named(self@),
        ensures
            expr_views(ops@) == into_ops(self@),
    {
        let mut ops: Vec<Expr> = Vec::new();
        let mut i: usize = 0;
        while i < self.0.len()
            invariant
                i <= self.0.len(),
                all_named(self@),
                ops@.len() == i,
                forall|j: int| 0 <= j < i ==> (#[trigger] ops@[j])@ == self@[j].into_op(),
            decreases self.0.len() - i,
        {
            assert(self@[i as int].ident is Some);
            ops.push(self.0[i].into_op());
            i = i + 1;
        }
        assert(expr_views(ops@) =~= into_ops(self@));
        ops
    }
}

/// Writes the names of the fields of `group`, separated by commas.
pub fn list(group: &ValueMeta) -> (out: String)
    requires
        all_named(group@),
    ensures
        out@ == list_text(group@),
{
    join(&group.idents(), ", ")
}

/// Writes the borrows of the fields of a borrowed model as one expression.
pub fn borrows(group: &ValueMeta) -> (out: String)
    requires
        all_named(group@),
    ensures
        out@ == borrow_text(group@),
{
    proof {
        lemma_merged_fields(group@);
    }
    group.variable().unwrap().composite_ident(Some("&self."))
}

/// Writes the fields of a model that is given up as one expression.
pub fn owned(group: &ValueMeta) -> (out: String)
    requires
        all_named(group@),
    ensures
        out@ == owned_text(group@),
{
    proof {
        lemma_merged_fields(group@);
    }
    group.variable().unwrap().composite_ident(Some("self."))
}

/// Writes the clones of the fields of a model as one expression.
pub fn clones(group: &ValueMeta) -> (out: String)
    requires
        all_named(group@),
    ensures
        out@ == clone_text(group@),
{
    let idents = group.idents();
    assert(idents@.len() == texts(idents@).len());
    let mut calls: Vec<Expr> = Vec::new();
    let mut i: usize = 0;
    while i < idents.len()
        invariant
            i <= idents.len(),
            idents@.len() == group@.len(),
            texts(idents@) == idents_of(group@),
            calls@.len() == i,
            forall|j: int| 0 <= j < i ==> (#[trigger] calls@[j])@ == clone_ops(group@)[j],
        decreases idents.len() - i,
    {
        assert(texts(idents@)[i as int] == idents@[i as int]@);
        let mut receiver = String::from_str("self.");
        receiver.append(idents[i].as_str());
        calls.push(Expr::method_call(receiver.as_str(), "clone"));
        i = i + 1;
    }
    assert(expr_views(calls@) =~= clone_ops(group@));
    exprs_tuple(&calls)
}

} // verus!
