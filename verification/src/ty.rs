//! Types as the schema compiler sees them: a borrow, or anything else held as text.
use crate::error::Error;
use crate::text::{str_eq, texts, tuple, tuple_text};
use vstd::prelude::*;
use vstd::string::*;

verus! {

/// How the compiler treats a type when it picks a default conversion.
#[derive(Clone, Copy, Debug, PartialEq, Eq, Structural)]
pub enum TypeClass {
    /// A fixed-width number, passed by value.
    PrimitiveCopy,
    /// The growable owned string.
    StringLike,
    /// A borrow of another type.
    Reference,
    /// Any other type: borrowed by default.
    Opaque,
}

/// A type as it is written in a model or in a table definition.
#[derive(Debug, PartialEq, Eq)]
pub enum Type {
    /// A borrow, `&'lifetime mut elem`; the lifetime is held without its apostrophe.
    Reference { lifetime: Option<String>, mutable: bool, elem: String },
    /// Any other type, held as its text.
    Plain { text: String },
}

/// What a [`Type`] stands for in contracts.
pub enum TypeView {
    Reference { lifetime: Option<Seq<char>>, mutable: bool, elem: Seq<char> },
    Plain { text: Seq<char> },
}

/// The characters of an optional string.
pub open spec fn opt_text(o: Option<String>) -> Option<Seq<char>> {
    match o {
        Some(s) => Some(s@),
        None => None,
    }
}

/// The names of the fixed-width numeric types.
pub open spec fn is_primitive_name(text: Seq<char>) -> bool {
    ||| text == "i8"@
    ||| text == "i16"@
    ||| text == "i32"@
    ||| text == "i64"@
    ||| text == "i128"@
    ||| text == "u8"@
    ||| text == "u16"@
    ||| text == "u32"@
    ||| text == "u64"@
    ||| text == "u128"@
    ||| text == "f32"@
    ||| text == "f64"@
}

impl View for Type {
    type V = TypeView;

    open spec fn view(&self) -> TypeView {
        match self {
            Type::Reference { lifetime, mutable, elem } => TypeView::Reference {
                lifetime: opt_text(*lifetime),
                mutable: *mutable,
                elem: elem@,
            },
            Type::Plain { text } => TypeView::Plain { text: text@ },
        }
    }
}

impl TypeView {
    /// The class that decides the default conversions of a field of this type.
    pub open spec fn classify(self) -> TypeClass {
        match self {
            TypeView::Reference { .. } => TypeClass::Reference,
            TypeView::Plain { text } => if is_primitive_name(text) {
                TypeClass::PrimitiveCopy
            } else if text == "String"@ {
                TypeClass::StringLike
            } else {
                TypeClass::Opaque
            },
        }
    }

    /// A borrow with its lifetime replaced by `lifetime`; any other type unchanged.
    pub open spec fn with_lifetime(self, lifetime: Seq<char>) -> TypeView {
        match self {
            TypeView::Reference { lifetime: _, mutable, elem } => TypeView::Reference {
                lifetime: Some(lifetime),
                mutable,
                elem,
            },
            TypeView::Plain { text } => self,
        }
    }

    /// Whether a borrow, if this is one, lives for the whole process.
    pub open spec fn is_static(self) -> bool {
        self is Reference ==> self->lifetime == Some("static"@)
    }

    /// The type under which a value of this type is stored: the owned string is
    /// stored as a string slice, every other type as itself.
    pub open spec fn storage_form(self) -> TypeView {
        if self.classify() == TypeClass::StringLike {
            TypeView::Reference { lifetime: None, mutable: false, elem: "str"@ }
        } else {
            self
        }
    }

    /// The type written out as source text.
    pub open spec fn text(self) -> Seq<char> {
        match self {
            TypeView::Reference { lifetime, mutable, elem } => {
                let head = match lifetime {
                    Some(l) => "&"@ + "'"@ + l + " "@,
                    None => "&"@,
                };
                let head = if mutable {
                    head + "mut "@
                } else {
                    head
                };
                head + elem
            },
            TypeView::Plain { text } => text,
        }
    }
}

/// Whether `text` names a fixed-width numeric type.
pub fn primitive_name(text: &str) -> (b: bool)
    ensures
        b == is_primitive_name(text@),
{
    str_eq(text, "i8") || str_eq(text, "i16") || str_eq(text, "i32") || str_eq(text, "i64")
        || str_eq(text, "i128") || str_eq(text, "u8") || str_eq(text, "u16") || str_eq(
        text,
        "u32",
    ) || str_eq(text, "u64") || str_eq(text, "u128") || str_eq(text, "f32") || str_eq(
        text,
        "f64",
    )
}

fn clone_opt(o: &Option<String>) -> (c: Option<String>)
    ensures
        c == *o,
{
    match o {
        Some(s) => Some(s.clone()),
        None => None,
    }
}

fn opt_eq(a: &Option<String>, b: &Option<String>) -> (same: bool)
    ensures
        same == (opt_text(*a) == opt_text(*b)),
{
    match (a, b) {
        (Some(x), Some(y)) => str_eq(x.as_str(), y.as_str()),
        (None, None) => true,
        _ => false,
    }
}

impl Clone for Type {
    fn clone(&self) -> (c: Self)
        ensures
            c == *self,
    {
        match self {
            Type::Reference { lifetime, mutable, elem } => Type::Reference {
                lifetime: clone_opt(lifetime),
                mutable: *mutable,
                elem: elem.clone(),
            },
            Type::Plain { text } => Type::Plain { text: text.clone() },
        }
    }
}

impl Type {
    /// The type written as `text`, taken as it is.
    pub fn plain(text: &str) -> (t: Type)
        ensures
            t@ == (TypeView::Plain { text: text@ }),
    {
        Type::Plain { text: String::from_str(text) }
    }

    /// A shared borrow of `elem` without a lifetime.
    pub fn reference(elem: &str) -> (t: Type)
        ensures
            t@ == (TypeView::Reference { lifetime: None, mutable: false, elem: elem@ }),
    {
        Type::Reference { lifetime: None, mutable: false, elem: String::from_str(elem) }
    }

    /// Whether this type is a borrow.
    pub fn is_reference(&self) -> (b: bool)
        ensures
            b == (self@ is Reference),
    {
        match self {
            Type::Reference { .. } => true,
            Type::Plain { .. } => false,
        }
    }

    /// Classifies the type by its shape and name alone.
    pub fn classify(&self) -> (class: TypeClass)
        ensures
            class == self@.classify(),
    {
        match self {
            Type::Reference { .. } => TypeClass::Reference,
            Type::Plain { text } => {
                if primitive_name(text.as_str()) {
                    TypeClass::PrimitiveCopy
                } else if str_eq(text.as_str(), "String") {
                    TypeClass::StringLike
                } else {
                    TypeClass::Opaque
                }
            },
        }
    }

    /// Whether the two types are written alike.
    pub fn same(&self, other: &Type) -> (b: bool)
        ensures
            b == (self@ == other@),
    {
        match (self, other) {
            (
                Type::Reference { lifetime: l1, mutable: m1, elem: e1 },
                Type::Reference { lifetime: l2, mutable: m2, elem: e2 },
            ) => opt_eq(l1, l2) && *m1 == *m2 && str_eq(e1.as_str(), e2.as_str()),
            (Type::Plain { text: t1 }, Type::Plain { text: t2 }) => str_eq(
                t1.as_str(),
                t2.as_str(),
            ),
            _ => false,
        }
    }

    /// Gives a borrow the lifetime `lifetime`; any other type is copied unchanged.
    pub fn with_lifetime(&self, lifetime: &str) -> (t: Type)
        ensures
            t@ == self@.with_lifetime(lifetime@),
    {
        match self {
            Type::Reference { lifetime: _, mutable, elem } => Type::Reference {
                lifetime: Some(String::from_str(lifetime)),
                mutable: *mutable,
                elem: elem.clone(),
            },
            Type::Plain { text } => Type::Plain { text: text.clone() },
        }
    }

    /// The type under which a value of this type is stored.
    pub fn storage_form(&self) -> (t: Type)
        ensures
            t@ == self@.storage_form(),
    {
        match self.classify() {
            TypeClass::StringLike => Type::reference("str"),
            _ => self.clone(),
        }
    }

    /// Writes the type out as source text.
    pub fn text(&self) -> (out: String)
        ensures
            out@ == self@.text(),
    {
        match self {
            Type::Reference { lifetime, mutable, elem } => {
                let mut out = String::from_str("&");
                match lifetime {
                    Some(l) => {
                        out.append("'");
                        out.append(l.as_str());
                        out.append(" ");
                    },
                    None => {},
                }
                if *mutable {
                    out.append("mut ");
                }
                out.append(elem.as_str());
                out
            },
            Type::Plain { text } => text.clone(),
        }
    }

    /// Turns what the parser made of an annotation value into a type, or into the
    /// error for a value that is no type.
    pub fn from_parsed(parsed: Option<Type>) -> (r: Result<Type, Error>)
        ensures
            r == match parsed {
                Some(t) => Ok::<Type, Error>(t),
                None => Err(Error::InvalidConfiguration),
            },
    {
        match parsed {
            Some(t) => Ok(t),
            None => Err(Error::InvalidConfiguration),
        }
    }

    /// Reads an annotation value as a type. The parser decides what is a type and
    /// how it is spelled; a value that it rejects is an invalid configuration.
    pub fn from_meta(text: &str) -> (r: Result<Type, Error>)
        ensures
            r matches Err(e) ==> e == Error::InvalidConfiguration,
    {
        Type::from_parsed(parse_type(text))
    }
}

/// The type of a whole group of fields: the types of the fields in the order of
/// their declaration.
#[derive(Debug, PartialEq, Eq)]
pub struct GroupType {
    pub elems: Vec<Type>,
}

/// The views of a sequence of types.
pub open spec fn type_views(types: Seq<Type>) -> Seq<TypeView> {
    types.map_values(|t: Type| t@)
}

/// The source text of each type.
pub open spec fn type_texts(types: Seq<TypeView>) -> Seq<Seq<char>> {
    types.map_values(|t: TypeView| t.text())
}

/// The source text of a group's type: the type of its one field, or the tuple of
/// the types of its fields, which for no field is the unit type.
pub open spec fn group_text(types: Seq<TypeView>) -> Seq<char> {
    tuple_text(type_texts(types))
}

impl View for GroupType {
    type V = Seq<TypeView>;

    open spec fn view(&self) -> Seq<TypeView> {
        type_views(self.elems@)
    }
}

impl GroupType {
    /// Writes the group's type out as source text.
    pub fn text(&self) -> (out: String)
        ensures
            out@ == group_text(self@),
    {
        let mut parts: Vec<String> = Vec::new();
        let mut i: usize = 0;
        while i < self.elems.len()
            invariant
                i <= self.elems.len(),
                parts@.len() == i,
                forall|j: int| 0 <= j < i ==> (#[trigger] parts@[j])@ == self.elems@[j]@.text(),
            decreases self.elems.len() - i,
        {
            parts.push(self.elems[i].text());
            i = i + 1;
        }
        assert(texts(parts@) =~= type_texts(self@));
        tuple(&parts)
    }
}

/// Reads `text` with `syn::parse_str` as a `syn::Type`. A `syn::Type::Reference`
/// comes back as a borrow: the name of its lifetime, whether it is `mut`, and the
/// tokens of the type it borrows. Any other type comes back as its tokens. Text
/// that is not one type gives `None`.
///
/// Nothing is claimed about the outcome. The token library reads and spells
/// tokens with the compiler's lexer and printer inside a procedural macro and
/// with its own elsewhere, so the outcome is not a function of the text alone.
#[verifier::external_body]
fn parse_type(text: &str) -> (parsed: Option<Type>) {
    match syn::parse_str::<syn::Type>(text) {
        Ok(syn::Type::Reference(r)) => Some(
            Type::Reference {
                lifetime: r.lifetime.map(|l| l.ident.to_string()),
                mutable: r.mutability.is_some(),
                elem: quote::ToTokens::to_token_stream(&r.elem).to_string(),
            },
        ),
        Ok(other) => Some(
            Type::Plain { text: quote::ToTokens::to_token_stream(&other).to_string() },
        ),
        Err(_) => None,
    }
}

/// The type under which a field is declared in the table definition. A borrow in
/// it lives for the whole process.
#[derive(Debug, PartialEq, Eq)]
pub struct RedbType(Type);

impl View for RedbType {
    type V = TypeView;

    closed spec fn view(&self) -> TypeView {
        self.0@
    }
}

impl Clone for RedbType {
    fn clone(&self) -> (c: Self)
        ensures
            c@ == self@,
    {
        proof {
            use_type_invariant(self);
        }
        RedbType(self.0.clone())
    }
}

impl RedbType {
    #[verifier::type_invariant]
    spec fn lives_forever(self) -> bool {
        self.0@.is_static()
    }

    /// Declares `ty` for the table definition: a borrow gets the lifetime `'static`.
    pub fn new(ty: Type) -> (r: RedbType)
        ensures
            r@ == ty@.with_lifetime("static"@),
    {
        RedbType(ty.with_lifetime("static"))
    }

    /// Reads an annotation value as the type to declare in the table definition.
    /// The parser decides what is a type; whatever it accepts is declared as
    /// [`RedbType::new`] says.
    pub fn from_meta(text: &str) -> (r: Result<RedbType, Error>)
        ensures
            r matches Ok(t) ==> t@.is_static(),
            r matches Err(e) ==> e == Error::InvalidConfiguration,
    {
        match Type::from_meta(text) {
            Ok(ty) => Ok(RedbType::new(ty)),
            Err(e) => Err(e),
        }
    }

    /// The declared type itself.
    pub fn deref(&self) -> (ty: &Type)
        ensures
            ty@ == self@,
            ty@.is_static(),
    {
        proof {
            use_type_invariant(self);
        }
        &self.0
    }
}

} // verus!
