//! From the arguments of a model to its table and the code generated for it.
use crate::args::{
    entry_views, Data, EntryArgs, EntryArgsView, EntryPosition, ModelArgs, ModelArgsView,
};
use crate::error::Error;
use crate::impl_from::{impl_from, impl_from_text};
use crate::impl_model::{impl_model, impl_model_text};
use crate::impl_model_ext::{impl_model_ext, impl_model_ext_text};
use crate::model::{ModelMeta, TableMetadata, TableMetadataView};
use crate::semantics::is_model;
use crate::var::{all_named, idents_of, lemma_all_named_merged, schema_types, ValueMeta};
use vstd::prelude::*;
use vstd::string::*;

verus! {

/// The fields that stand at `position`, in the order of their declaration.
pub open spec fn in_position(fields: Seq<EntryArgsView>, position: EntryPosition) -> Seq<
    EntryArgsView,
> {
    fields.filter(|f: EntryArgsView| f.position == position)
}

/// The fields of the key of a model.
pub open spec fn key_fields(fields: Seq<EntryArgsView>) -> Seq<EntryArgsView> {
    in_position(fields, EntryPosition::Key)
}

/// The fields of the value of a model.
pub open spec fn value_fields(fields: Seq<EntryArgsView>) -> Seq<EntryArgsView> {
    in_position(fields, EntryPosition::Value)
}

/// One more field goes to the end of its own group and leaves the other group
/// as it was.
proof fn lemma_next_field(fields: Seq<EntryArgsView>, n: int, position: EntryPosition)
    requires
        0 <= n < fields.len(),
    ensures
        in_position(fields.take(n + 1), position) == if fields[n].position == position {
            in_position(fields.take(n), position).push(fields[n])
        } else {
            in_position(fields.take(n), position)
        },
{
    reveal(Seq::filter);
    assert(fields.take(n + 1).drop_last() =~= fields.take(n));
}

/// Parts the fields of a model into those of its key and those of its value.
/// Each group keeps the order in which its fields were declared.
pub fn partition(fields: Vec<EntryArgs>) -> (groups: (Vec<EntryArgs>, Vec<EntryArgs>))
    ensures
        entry_views(groups.0@) == key_fields(entry_views(fields@)),
        entry_views(groups.1@) == value_fields(entry_views(fields@)),
{
    let ghost views = entry_views(fields@);
    let mut keys: Vec<EntryArgs> = Vec::new();
    let mut values: Vec<EntryArgs> = Vec::new();
    let mut i: usize = 0;
    proof {
        reveal(Seq::filter);
    }
    while i < fields.len()
        invariant
            i <= fields.len(),
            views == entry_views(fields@),
            entry_views(keys@) =~= key_fields(views.take(i as int)),
            entry_views(values@) =~= value_fields(views.take(i as int)),
        decreases fields.len() - i,
    {
        proof {
            lemma_next_field(views, i as int, EntryPosition::Key);
            lemma_next_field(views, i as int, EntryPosition::Value);
        }
        match fields[i].position() {
            EntryPosition::Key => {
                keys.push(fields[i].clone());
            },
            EntryPosition::Value => {
                values.push(fields[i].clone());
            },
        }
        i = i + 1;
    }
    assert(views.take(fields.len() as int) =~= views);
    (keys, values)
}

/// What a model compiles to.
#[derive(Debug, PartialEq, Eq)]
pub struct Expansion {
    /// The descriptor against which the table is opened.
    pub table: TableMetadata,
    /// The items generated for the model, as source text.
    pub code: String,
}

/// What an [`Expansion`] stands for in contracts.
pub struct ExpansionView {
    pub table: TableMetadataView,
    pub code: Seq<char>,
}

impl View for Expansion {
    type V = ExpansionView;

    open spec fn view(&self) -> ExpansionView {
        ExpansionView { table: self.table@, code: self.code@ }
    }
}

impl ModelArgsView {
    /// Why the model cannot be compiled, if it cannot. What is not a struct is an
    /// unsupported shape, and so is a field without a name. A model needs a
    /// field in its key. `From` can only be generated on top of the conversions.
    /// The first of these that applies, in this order, is the error.
    pub open spec fn error(self) -> Option<Error> {
        match self.data {
            None => Some(Error::UnsupportedShape),
            Some(fields) => if !all_named(key_fields(fields)) {
                Some(Error::UnsupportedShape)
            } else if key_fields(fields).len() == 0 {
                Some(Error::MissingKeyFields)
            } else if !all_named(value_fields(fields)) {
                Some(Error::UnsupportedShape)
            } else if self.impl_from == Some(true) && self.impl_ext != Some(true) {
                Some(Error::MissingDependency)
            } else {
                None
            },
        }
    }

    /// The descriptor of the model's table: its name and kind, and the types of
    /// its key and value as they are stored.
    pub open spec fn table(self) -> TableMetadataView {
        TableMetadataView {
            name: self.table_name(),
            ty: self.table_kind(),
            key: schema_types(key_fields(self.data.unwrap())),
            value: schema_types(value_fields(self.data.unwrap())),
        }
    }

    /// The items generated for the model: the table definition, then the
    /// conversions and `From` where they are asked for.
    pub open spec fn code(self) -> Seq<char> {
        let k = key_fields(self.data.unwrap());
        let v = value_fields(self.data.unwrap());
        let definition = impl_model_text(self.meta(), k, v);
        let conversions = if self.impl_ext == Some(true) {
            definition + impl_model_ext_text(self.meta(), k, v)
        } else {
            definition
        };
        if self.impl_from == Some(true) {
            conversions + impl_from_text(self.meta(), k, v)
        } else {
            conversions
        }
    }

    /// What the model compiles to.
    pub open spec fn expansion(self) -> ExpansionView {
        ExpansionView { table: self.table(), code: self.code() }
    }
}

impl ModelArgs {
    /// The place of the first field without a name, in the order of declaration.
    /// It is the field to show where the model is of an unsupported shape, unless
    /// the model is no struct at all.
    pub fn unnamed_field(&self) -> (place: Option<usize>)
        ensures
            match place {
                Some(i) => self@.data is Some && i < self@.data.unwrap().len()
                    && self@.data.unwrap()[i as int].ident is None && all_named(
                    self@.data.unwrap().take(i as int),
                ),
                None => self@.data is Some ==> all_named(self@.data.unwrap()),
            },
    {
        match &self.data {
            Data::Enum => None,
            Data::Struct(fields) => {
                let mut i: usize = 0;
                while i < fields.len()
                    invariant
                        i <= fields.len(),
                        self@.data == Some(entry_views(fields@)),
                        all_named(entry_views(fields@).take(i as int)),
                    decreases fields.len() - i,
                {
                    if !fields[i].is_named() {
                        assert(entry_views(fields@)[i as int] == fields@[i as int]@);
                        return Some(i);
                    }
                    assert forall|j: int| 0 <= j < i + 1 implies (#[trigger] entry_views(
                        fields@,
                    ).take(i + 1)[j]).ident is Some by {
                        if j < i {
                            assert(entry_views(fields@).take(i as int)[j].ident is Some);
                        }
                    }
                    i = i + 1;
                }
                assert(entry_views(fields@).take(fields.len() as int) =~= entry_views(fields@));
                None
            },
        }
    }
}

/// A struct that is of an unsupported shape has a field without a name.
pub proof fn lemma_unsupported_struct_has_unnamed_field(args: ModelArgsView)
    requires
        args.data is Some,
        args.error() == Some(Error::UnsupportedShape),
    ensures
        !all_named(args.data.unwrap()),
{
    let fields = args.data.unwrap();
    let group = if !all_named(key_fields(fields)) {
        key_fields(fields)
    } else {
        value_fields(fields)
    };
    let i = choose|i: int| 0 <= i < group.len() && (#[trigger] group[i]).ident is None;
    let position = if !all_named(key_fields(fields)) {
        EntryPosition::Key
    } else {
        EntryPosition::Value
    };
    assert(group.contains(group[i]));
    fields.lemma_filter_contains_rev(|f: EntryArgsView| f.position == position, group[i]);
    let j = choose|j: int| 0 <= j < fields.len() && fields[j] == group[i];
    assert(fields[j].ident is None);
}

/// Compiles a model: from the arguments declared on a struct and on its fields to
/// the descriptor of its table and the items generated for it. Nothing is
/// generated for a model that has an error.
#[allow(non_snake_case)]
pub fn Model(args: ModelArgs) -> (r: Result<Expansion, Error>)
    ensures
        match r {
            Ok(expansion) => args@.error() is None && expansion@ == args@.expansion(),
            Err(e) => args@.error() == Some(e),
        },
{
    let m = ModelMeta::new(&args);
    let with_ext = args.impl_ext;
    let with_from = args.impl_from;
    let fields = match args.data.take_struct() {
        Some(fields) => fields,
        None => {
            return Err(Error::UnsupportedShape);
        },
    };
    let (k_fields, v_fields) = partition(fields);
    let k = ValueMeta::new(k_fields);
    let v = ValueMeta::new(v_fields);
    match k.variable() {
        Ok(_) => {},
        Err(e) => {
            return Err(e);
        },
    }
    if k.len() == 0 {
        return Err(Error::MissingKeyFields);
    }
    match v.variable() {
        Ok(_) => {},
        Err(e) => {
            return Err(e);
        },
    }
    let with_ext = match with_ext {
        Some(true) => true,
        _ => false,
    };
    let with_from = match with_from {
        Some(true) => true,
        _ => false,
    };
    if with_from && !with_ext {
        return Err(Error::MissingDependency);
    }
    let mut code = impl_model(&m, &k, &v);
    if with_ext {
        code.append(impl_model_ext(&m, &k, &v).as_str());
    }
    if with_from {
        code.append(impl_from(&m, &k, &v).as_str());
    }
    let table = TableMetadata::new(
        String::from_str(m.name()),
        m.table_ty(),
        k.redb_ty(),
        v.redb_ty(),
    );
    Ok(Expansion { table, code })
}

/// The names of the fields of the two groups together are the names of the
/// first `n` fields of the struct, each as often as there.
proof fn lemma_groups_keep_names(fields: Seq<EntryArgsView>, n: int)
    requires
        0 <= n <= fields.len(),
    ensures
        idents_of(key_fields(fields.take(n))).to_multiset().add(
            idents_of(value_fields(fields.take(n))).to_multiset(),
        ) =~= idents_of(fields.take(n)).to_multiset(),
    decreases n,
{
    broadcast use vstd::seq_lib::group_to_multiset_ensures;
    broadcast use vstd::multiset::group_multiset_axioms;

    if n == 0 {
        reveal(Seq::filter);
    } else {
        lemma_groups_keep_names(fields, n - 1);
        lemma_next_field(fields, n - 1, EntryPosition::Key);
        lemma_next_field(fields, n - 1, EntryPosition::Value);
        let f = fields[n - 1];
        let name = f.ident.unwrap();
        let before = fields.take(n - 1);
        assert(idents_of(fields.take(n)) =~= idents_of(before).push(name));
        match f.position {
            EntryPosition::Key => {
                assert(idents_of(key_fields(before).push(f)) =~= idents_of(
                    key_fields(before),
                ).push(name));
            },
            EntryPosition::Value => {
                assert(idents_of(value_fields(before).push(f)) =~= idents_of(
                    value_fields(before),
                ).push(name));
            },
        }
    }
}

/// If no two fields of a struct share a name, no two fields of its key and its
/// value do.
pub proof fn lemma_names_stay_distinct(fields: Seq<EntryArgsView>)
    requires
        idents_of(fields).no_duplicates(),
    ensures
        idents_of(key_fields(fields) + value_fields(fields)).no_duplicates(),
{
    broadcast use vstd::seq_lib::group_to_multiset_ensures;
    broadcast use vstd::multiset::group_multiset_axioms;

    let k = idents_of(key_fields(fields));
    let v = idents_of(value_fields(fields));
    let both = idents_of(key_fields(fields) + value_fields(fields));
    lemma_groups_keep_names(fields, fields.len() as int);
    assert(fields.take(fields.len() as int) =~= fields);
    assert(both =~= k + v);
    vstd::seq_lib::lemma_multiset_commutative(k, v);
    idents_of(fields).lemma_multiset_has_no_duplicates();
    both.lemma_multiset_has_no_duplicates_conv();
}

/// A struct that compiles has a field in its key and a name for every field. If
/// no two of its fields share a name, its two groups make a model.
pub proof fn lemma_compiled_is_model(args: ModelArgsView)
    requires
        args.error() is None,
        idents_of(args.data.unwrap()).no_duplicates(),
    ensures
        is_model(key_fields(args.data.unwrap()), value_fields(args.data.unwrap())),
{
    lemma_all_named_merged(key_fields(args.data.unwrap()), value_fields(args.data.unwrap()));
    lemma_names_stay_distinct(args.data.unwrap());
}

} // verus!
