//! What the generated conversions compute, and what holds of them.
//!
//! A model at run time is taken as a map from the names of its fields to what
//! they hold. A key or a value, in the model's own form or as it is stored, is
//! taken as the sequence of its slots: one slot for each field of its group,
//! in the order of the group. Contents are compared by what they hold, so a
//! borrow holds what it borrows.
use crate::args::EntryArgsView;
use crate::expr::ExprView;
use crate::ty::{group_text, type_texts, TypeClass, TypeView};
use crate::var::{all_named, from_ops, idents_of, into_ops, model_types, schema_types};
use vstd::prelude::*;

verus! {

/// What a conversion makes of what its field holds. Naming the field, borrowing
/// it, reading through the borrow and copying it into an owned value all keep
/// what it holds. What the general value conversion or an expression given as
/// text makes of it is for `user` to say.
pub open spec fn converted<V>(e: ExprView, x: V, user: spec_fn(ExprView, V) -> V) -> V {
    match e {
        ExprView::Path(_) => x,
        ExprView::Reference(_) => x,
        ExprView::Deref(_) => x,
        ExprView::MethodCall { receiver, method } => if method == "to_owned"@ {
            x
        } else {
            user(e, x)
        },
        ExprView::Verbatim(_) => user(e, x),
    }
}

/// Each slot converted by the conversion at its place.
pub open spec fn convert_all<V>(
    ops: Seq<ExprView>,
    slots: Seq<V>,
    user: spec_fn(ExprView, V) -> V,
) -> Seq<V> {
    Seq::new(slots.len(), |i: int| converted(ops[i], slots[i], user))
}

/// The model whose field `names[i]` holds `slots[i]`.
pub open spec fn record<V>(names: Seq<Seq<char>>, slots: Seq<V>) -> Map<Seq<char>, V> {
    Map::new(|n: Seq<char>| names.contains(n), |n: Seq<char>| slots[names.index_of(n)])
}

/// What the fields called `names` hold in `model`, in the order of `names`.
pub open spec fn fields_of<V>(model: Map<Seq<char>, V>, names: Seq<Seq<char>>) -> Seq<V> {
    names.map_values(|n: Seq<char>| model[n])
}

/// A key group and a value group that make a model: every field has a name, no
/// two fields share one, and the key has a field.
pub open spec fn is_model(k: Seq<EntryArgsView>, v: Seq<EntryArgsView>) -> bool {
    &&& all_named(k + v)
    &&& idents_of(k + v).no_duplicates()
    &&& k.len() > 0
}

/// Whether `model` holds something for each field of the two groups, and for
/// nothing else.
pub open spec fn is_instance<V>(
    model: Map<Seq<char>, V>,
    k: Seq<EntryArgsView>,
    v: Seq<EntryArgsView>,
) -> bool {
    model.dom() =~= idents_of(k + v).to_set()
}

/// Whether a field comes back as it was when it is converted into its stored
/// value and from there back again.
pub open spec fn lossless<V>(f: EntryArgsView, user: spec_fn(ExprView, V) -> V) -> bool {
    forall|x: V| converted(f.from_op(), #[trigger] converted(f.into_op(), x, user), user) == x
}

/// Whether every field of the group is [`lossless`].
pub open spec fn all_lossless<V>(
    fields: Seq<EntryArgsView>,
    user: spec_fn(ExprView, V) -> V,
) -> bool {
    forall|i: int| 0 <= i < fields.len() ==> lossless(#[trigger] fields[i], user)
}

/// The model that `from_values` builds from a key and a value of the model's
/// own form: each field holds its slot.
pub open spec fn from_values<V>(
    k: Seq<EntryArgsView>,
    v: Seq<EntryArgsView>,
    key: Seq<V>,
    value: Seq<V>,
) -> Map<Seq<char>, V> {
    record(idents_of(k + v), key + value)
}

/// The model that `from_storage_pair` builds from a stored key and a stored
/// value: each field holds what its conversion makes of its slot.
pub open spec fn from_storage_pair<V>(
    k: Seq<EntryArgsView>,
    v: Seq<EntryArgsView>,
    key: Seq<V>,
    value: Seq<V>,
    user: spec_fn(ExprView, V) -> V,
) -> Map<Seq<char>, V> {
    record(idents_of(k + v), convert_all(from_ops(k + v), key + value, user))
}

/// The model that `from_key_and_storage_value` builds from a key of the model's
/// own form and a stored value: each field of the key holds its slot, each
/// field of the value what its conversion makes of its slot.
pub open spec fn from_key_and_storage_value<V>(
    k: Seq<EntryArgsView>,
    v: Seq<EntryArgsView>,
    key: Seq<V>,
    value: Seq<V>,
    user: spec_fn(ExprView, V) -> V,
) -> Map<Seq<char>, V> {
    record(idents_of(k + v), key + convert_all(from_ops(v), value, user))
}

/// What `as_storage_key` and `as_storage_value` hand out for the fields of
/// their group: for each field what its conversion makes of what it holds.
pub open spec fn as_storage<V>(
    fields: Seq<EntryArgsView>,
    model: Map<Seq<char>, V>,
    user: spec_fn(ExprView, V) -> V,
) -> Seq<V> {
    convert_all(into_ops(fields), fields_of(model, idents_of(fields)), user)
}

/// What `as_storage_pair` hands out: the key and the value to store.
pub open spec fn as_storage_pair<V>(
    k: Seq<EntryArgsView>,
    v: Seq<EntryArgsView>,
    model: Map<Seq<char>, V>,
    user: spec_fn(ExprView, V) -> V,
) -> (Seq<V>, Seq<V>) {
    (as_storage(k, model, user), as_storage(v, model, user))
}

/// What `clone_key` and `clone_value` hand out for the fields of their group:
/// what each field holds.
pub open spec fn cloned_fields<V>(fields: Seq<EntryArgsView>, model: Map<Seq<char>, V>) -> Seq<V> {
    fields_of(model, idents_of(fields))
}

/// What `into_values` hands out: what the fields of the key hold and what
/// those of the value hold.
pub open spec fn into_values<V>(
    k: Seq<EntryArgsView>,
    v: Seq<EntryArgsView>,
    model: Map<Seq<char>, V>,
) -> (Seq<V>, Seq<V>) {
    (fields_of(model, idents_of(k)), fields_of(model, idents_of(v)))
}

proof fn lemma_record_of_fields<V>(model: Map<Seq<char>, V>, names: Seq<Seq<char>>)
    requires
        model.dom() =~= names.to_set(),
    ensures
        record(names, fields_of(model, names)) == model,
{
    let rebuilt = record(names, fields_of(model, names));
    assert forall|n: Seq<char>| rebuilt.dom().contains(n) implies rebuilt[n] == model[n] by {
        let i = names.index_of(n);
        assert(0 <= i < names.len() && names[i] == n);
    }
    assert(rebuilt =~= model);
}

proof fn lemma_fields_of_record<V>(names: Seq<Seq<char>>, slots: Seq<V>)
    requires
        names.no_duplicates(),
        names.len() == slots.len(),
    ensures
        fields_of(record(names, slots), names) == slots,
{
    let read = fields_of(record(names, slots), names);
    assert forall|i: int| 0 <= i < names.len() implies read[i] == slots[i] by {
        let j = names.index_of(names[i]);
        assert(0 <= j < names.len() && names[j] == names[i]);
    }
    assert(read =~= slots);
}

proof fn lemma_groups_side_by_side<V>(
    k: Seq<EntryArgsView>,
    v: Seq<EntryArgsView>,
    model: Map<Seq<char>, V>,
)
    ensures
        idents_of(k + v) == idents_of(k) + idents_of(v),
        from_ops(k + v) == from_ops(k) + from_ops(v),
        fields_of(model, idents_of(k + v)) == fields_of(model, idents_of(k)) + fields_of(
            model,
            idents_of(v),
        ),
{
    assert(idents_of(k + v) =~= idents_of(k) + idents_of(v));
    assert(from_ops(k + v) =~= from_ops(k) + from_ops(v));
}

/// A model that is taken apart by `into_values` and built again by
/// `from_values` is the model it was, field by field.
pub proof fn lemma_values_round_trip<V>(
    k: Seq<EntryArgsView>,
    v: Seq<EntryArgsView>,
    model: Map<Seq<char>, V>,
)
    requires
        is_model(k, v),
        is_instance(model, k, v),
    ensures
        from_values(k, v, into_values(k, v, model).0, into_values(k, v, model).1) == model,
{
    lemma_groups_side_by_side(k, v, model);
    lemma_record_of_fields(model, idents_of(k + v));
}

/// A key and a value from which `from_values` builds a model come out of
/// `into_values` as they went in, slot by slot.
pub proof fn lemma_values_kept<V>(
    k: Seq<EntryArgsView>,
    v: Seq<EntryArgsView>,
    key: Seq<V>,
    value: Seq<V>,
)
    requires
        is_model(k, v),
        key.len() == k.len(),
        value.len() == v.len(),
    ensures
        into_values(k, v, from_values(k, v, key, value)) == (key, value),
{
    let model = from_values(k, v, key, value);
    lemma_groups_side_by_side(k, v, model);
    lemma_fields_of_record(idents_of(k + v), key + value);
    assert(fields_of(model, idents_of(k)) =~= (key + value).subrange(0, k.len() as int));
    assert(key =~= (key + value).subrange(0, k.len() as int));
    assert(value =~= (key + value).subrange(k.len() as int, (key + value).len() as int));
}

/// A model whose entry is handed out by `as_storage_pair`, stored, read back
/// as it was stored and built again by `from_storage_pair` is the model it
/// was, provided that each field's two conversions undo each other.
pub proof fn lemma_storage_round_trip<V>(
    k: Seq<EntryArgsView>,
    v: Seq<EntryArgsView>,
    model: Map<Seq<char>, V>,
    user: spec_fn(ExprView, V) -> V,
)
    requires
        is_model(k, v),
        is_instance(model, k, v),
        all_lossless(k + v, user),
    ensures
        from_storage_pair(
            k,
            v,
            as_storage_pair(k, v, model, user).0,
            as_storage_pair(k, v, model, user).1,
            user,
        ) == model,
{
    lemma_groups_side_by_side(k, v, model);
    let stored = as_storage(k, model, user) + as_storage(v, model, user);
    let back = convert_all(from_ops(k + v), stored, user);
    let held = fields_of(model, idents_of(k + v));
    assert forall|i: int| 0 <= i < held.len() implies back[i] == held[i] by {
        let f = (k + v)[i];
        assert(lossless(f, user));
        assert(stored[i] == converted(f.into_op(), held[i], user));
    }
    assert(back =~= held);
    lemma_record_of_fields(model, idents_of(k + v));
}

/// A model that is built again by `from_key_and_storage_value` from the key
/// that `clone_key` copies out of it and from its value as `as_storage_value`
/// hands it out is the model it was, provided that the two conversions of each
/// field of the value undo each other.
pub proof fn lemma_mixed_round_trip<V>(
    k: Seq<EntryArgsView>,
    v: Seq<EntryArgsView>,
    model: Map<Seq<char>, V>,
    user: spec_fn(ExprView, V) -> V,
)
    requires
        is_model(k, v),
        is_instance(model, k, v),
        all_lossless(v, user),
    ensures
        from_key_and_storage_value(
            k,
            v,
            cloned_fields(k, model),
            as_storage(v, model, user),
            user,
        ) == model,
{
    lemma_groups_side_by_side(k, v, model);
    let back = convert_all(from_ops(v), as_storage(v, model, user), user);
    let held = fields_of(model, idents_of(v));
    assert forall|i: int| 0 <= i < held.len() implies back[i] == held[i] by {
        assert(lossless(v[i], user));
    }
    assert(back =~= held);
    lemma_record_of_fields(model, idents_of(k + v));
}

/// The default conversions of a field undo each other, whatever the general
/// value conversion does, as long as the field is stored under its own type or
/// as a borrow.
pub proof fn lemma_defaults_lossless<V>(f: EntryArgsView, user: spec_fn(ExprView, V) -> V)
    requires
        f.from is None,
        f.into is None,
        f.storage_ty() == f.ty || f.storage_ty() is Reference,
    ensures
        lossless(f, user),
{
}

/// A number without an override and without expressions of its own is stored
/// under its own type and goes both ways by value: it is named on the way
/// from the table and read through its borrow on the way there, with no call
/// on either way.
pub proof fn lemma_number_by_value(f: EntryArgsView)
    requires
        f.ty.classify() == TypeClass::PrimitiveCopy,
        f.redb_type is None,
        f.from is None,
        f.into is None,
    ensures
        f.schema_ty() == f.ty,
        f.ref_ty() == f.ty,
        f.from_op() == ExprView::Path(f.ident.unwrap()),
        f.into_op() == ExprView::Deref(f.ident.unwrap()),
{
}

/// An owned string without an override is stored as a string slice: one that
/// lives for the whole process in the table definition, and one that borrows
/// from the model where the model hands it out. Without expressions of its
/// own it is handed out as that borrow and copied into an owned string on the
/// way back, so what it holds is kept.
pub proof fn lemma_string_as_slice<V>(f: EntryArgsView, user: spec_fn(ExprView, V) -> V)
    requires
        f.ty.classify() == TypeClass::StringLike,
        f.redb_type is None,
    ensures
        f.schema_ty() == (TypeView::Reference {
            lifetime: Some("static"@),
            mutable: false,
            elem: "str"@,
        }),
        f.ref_ty() == (TypeView::Reference { lifetime: Some("a"@), mutable: false, elem: "str"@ }),
        f.from is None ==> f.from_op() == (ExprView::MethodCall {
            receiver: f.ident.unwrap(),
            method: "to_owned"@,
        }),
        f.into is None ==> f.into_op() == ExprView::Path(f.ident.unwrap()),
        f.from is None && f.into is None ==> lossless(f, user),
{
}

/// An expression given for a conversion is the conversion, whatever the types
/// of the field are.
pub proof fn lemma_given_expression_wins(f: EntryArgsView)
    ensures
        f.from is Some ==> f.from_op() == f.from.unwrap(),
        f.into is Some ==> f.into_op() == f.into.unwrap(),
{
}

/// The order of the fields is the layout of the tuple: two fields of different
/// types that change places change the type of the group within the model.
pub proof fn lemma_order_is_layout(fields: Seq<EntryArgsView>, i: int, j: int)
    requires
        0 <= i < j < fields.len(),
        fields[i].ty != fields[j].ty,
    ensures
        model_types(fields.update(i, fields[j]).update(j, fields[i])) != model_types(fields),
{
    let swapped = fields.update(i, fields[j]).update(j, fields[i]);
    assert(model_types(swapped)[i] == fields[j].ty);
    assert(model_types(fields)[i] == fields[i].ty);
}

/// A group without fields has the unit type, within the model and in the table
/// definition.
pub proof fn lemma_no_field_is_unit(fields: Seq<EntryArgsView>)
    requires
        fields.len() == 0,
    ensures
        group_text(model_types(fields)) == "()"@,
        group_text(schema_types(fields)) == "()"@,
{
    reveal_strlit("(");
    reveal_strlit(")");
    reveal_strlit("()");
    reveal_strlit(", ");
}

} // verus!
