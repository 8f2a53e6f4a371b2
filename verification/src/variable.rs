//! A variable of a model: one field, or several fields taken as a tuple.
use crate::args::{variable_views, VariableArgs, VariableArgsView};
use crate::error::Error;
use crate::text::{texts, tuple, tuple_text};
use crate::ty::{type_views, GroupType, Type, TypeView};
use vstd::prelude::*;
use vstd::string::*;

verus! {

/// A borrow of `ty` that lives as long as the model is borrowed.
pub open spec fn borrow_of(ty: TypeView) -> TypeView {
    TypeView::Reference { lifetime: Some("a"@), mutable: false, elem: ty.text() }
}

/// Whether every variable has a name.
pub open spec fn variables_named(fields: Seq<VariableArgsView>) -> bool {
    forall|i: int| 0 <= i < fields.len() ==> (#[trigger] fields[i]).ident is Some
}

/// What a [`CompositeVariable`] stands for in contracts.
pub struct CompositeVariableView {
    pub ty: Seq<TypeView>,
    pub ty_ref: Seq<TypeView>,
    pub idents: Seq<Seq<char>>,
}

/// The variable that `fields` merge into: their types, the borrows of their
/// types and their names, each in the order of the fields.
pub open spec fn merged(fields: Seq<VariableArgsView>) -> CompositeVariableView {
    CompositeVariableView {
        ty: fields.map_values(|f: VariableArgsView| f.ty),
        ty_ref: fields.map_values(|f: VariableArgsView| borrow_of(f.ty)),
        idents: fields.map_values(|f: VariableArgsView| f.ident.unwrap()),
    }
}

/// Each of `idents` with `prefix` written before it.
pub open spec fn prefixed(prefix: Seq<char>, idents: Seq<Seq<char>>) -> Seq<Seq<char>> {
    idents.map_values(|i: Seq<char>| prefix + i)
}

/// A variable, or a tuple of variables.
#[derive(Debug, PartialEq, Eq)]
pub struct CompositeVariable {
    /// The type, or the tuple of types.
    ty: GroupType,
    /// The borrow of the type, or the tuple of the borrows of the types.
    ty_ref: GroupType,
    /// The names of all the variables.
    idents: Vec<String>,
}

impl View for CompositeVariable {
    type V = CompositeVariableView;

    closed spec fn view(&self) -> CompositeVariableView {
        CompositeVariableView { ty: self.ty@, ty_ref: self.ty_ref@, idents: texts(self.idents@) }
    }
}

impl CompositeVariableView {
    /// One type, one borrow of it and one name for each variable.
    pub open spec fn wf(self) -> bool {
        &&& self.ty.len() == self.idents.len()
        &&& self.ty_ref == self.ty.map_values(|t: TypeView| borrow_of(t))
    }
}

impl CompositeVariable {
    #[verifier::type_invariant]
    spec fn well_formed(self) -> bool {
        self@.wf()
    }

    /// Merges `fields` into one variable. A single field stays as it is; any
    /// other number of fields becomes a tuple in the order given. A field
    /// without a name is an unsupported shape.
    pub fn new(fields: Vec<VariableArgs>) -> (r: Result<CompositeVariable, Error>)
        ensures
            match r {
                Ok(v) => variables_named(variable_views(fields@)) && v@ == merged(
                    variable_views(fields@),
                ),
                Err(e) => !variables_named(variable_views(fields@)) && e
                    == Error::UnsupportedShape,
            },
    {
        let ghost views = variable_views(fields@);
        let mut ty: Vec<Type> = Vec::new();
        let mut ty_ref: Vec<Type> = Vec::new();
        let mut idents: Vec<String> = Vec::new();
        let mut i: usize = 0;
        while i < fields.len()
            invariant
                i <= fields.len(),
                views == variable_views(fields@),
                ty@.len() == i,
                ty_ref@.len() == i,
                idents@.len() == i,
                forall|j: int| 0 <= j < i ==> (#[trigger] views[j]).ident is Some,
                forall|j: int| 0 <= j < i ==> (#[trigger] ty@[j])@ == views[j].ty,
                forall|j: int| 0 <= j < i ==> (#[trigger] ty_ref@[j])@ == borrow_of(views[j].ty),
                forall|j: int| 0 <= j < i ==> Some((#[trigger] idents@[j])@) == views[j].ident,
            decreases fields.len() - i,
        {
            match &fields[i].ident {
                Some(ident) => {
                    ty.push(fields[i].ty.clone());
                    ty_ref.push(
                        Type::Reference {
                            lifetime: Some(String::from_str("a")),
                            mutable: false,
                            elem: fields[i].ty.text(),
                        },
                    );
                    idents.push(ident.clone());
                },
                None => {
                    assert(views[i as int].ident is None);
                    return Err(Error::UnsupportedShape);
                },
            }
            i = i + 1;
        }
        let ghost m = merged(views);
        assert(type_views(ty@) =~= m.ty);
        assert(type_views(ty_ref@) =~= m.ty_ref);
        assert(texts(idents@) =~= m.idents);
        assert(m.ty_ref =~= m.ty.map_values(|t: TypeView| borrow_of(t)));
        Ok(
            CompositeVariable {
                ty: GroupType { elems: ty },
                ty_ref: GroupType { elems: ty_ref },
                idents,
            },
        )
    }

    /// The type of the variable.
    pub fn ty(&self) -> (ty: &GroupType)
        ensures
            ty@ == self@.ty,
            self@.wf(),
    {
        proof {
            use_type_invariant(self);
        }
        &self.ty
    }

    /// The borrow of the variable's type.
    pub fn ty_ref(&self) -> (ty: &GroupType)
        ensures
            ty@ == self@.ty_ref,
            self@.wf(),
    {
        proof {
            use_type_invariant(self);
        }
        &self.ty_ref
    }

    /// The names of the variables.
    pub fn idents(&self) -> (idents: &Vec<String>)
        ensures
            texts(idents@) == self@.idents,
            self@.wf(),
    {
        proof {
            use_type_invariant(self);
        }
        &self.idents
    }

    /// The variable as an expression: each name with `prefix` before it, one
    /// name alone and any other number of names as a tuple.
    pub fn composite_ident(&self, prefix: Option<&str>) -> (out: String)
        ensures
            out@ == tuple_text(
                prefixed(
                    match prefix {
                        Some(p) => p@,
                        None => Seq::empty(),
                    },
                    self@.idents,
                ),
            ),
    {
        let ghost p = match prefix {
            Some(p) => p@,
            None => Seq::empty(),
        };
        let mut parts: Vec<String> = Vec::new();
        let mut i: usize = 0;
        while i < self.idents.len()
            invariant
                i <= self.idents.len(),
                parts@.len() == i,
                p == match prefix {
                    Some(p) => p@,
                    None => Seq::<char>::empty(),
                },
                forall|j: int| 0 <= j < i ==> (#[trigger] parts@[j])@ == p + self.idents@[j]@,
            decreases self.idents.len() - i,
        {
            let mut part = String::new();
            match prefix {
                Some(p) => {
                    part.append(p);
                },
                None => {},
            }
            part.append(self.idents[i].as_str());
            parts.push(part);
            i = i + 1;
        }
        assert(texts(parts@) =~= prefixed(p, self@.idents));
        tuple(&parts)
    }
}

} // verus!
