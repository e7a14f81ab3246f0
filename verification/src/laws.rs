use vstd::prelude::*;
use crate::annotation::{first_named, ident_override, is_not_word, names_of, Payload};
use crate::diagnostic::DiagnosticView;
use crate::field::{extracted, fails_extraction, FieldView};
use crate::model::{
    empty_key_message, model_invariant, model_of, positions_in_order, resolved_table_name,
    shape_report, Declaration, ModelView,
};
use crate::naming::{
    capitals, char_is_uppercase, char_lowercase, inferred_table_name, is_capital, is_underscore,
    lemma_snake_tail_push, lowering_keeps_underscores, snake_case, snake_piece, snake_tail,
    underscores,
};
use crate::search::lemma_first_where;

verus! {

/// A declaration that is no plain record has no model: it is reported at the
/// call site, with the fixed text, whatever else it holds.
pub proof fn lemma_shape_rejected(item: Declaration)
    requires
        !(item.data is Struct),
    ensures
        model_of(item) == Err::<ModelView, DiagnosticView>(shape_report()),
{
}

/// Without a `table_name` annotation the table is named after the type.
pub proof fn lemma_table_name_inferred(item: Declaration)
    requires
        model_of(item) is Ok,
        first_named(item.attrs@, "table_name"@) is None,
    ensures
        resolved_table_name(model_of(item)->Ok_0) == inferred_table_name(item.ident@),
{
}

/// With a `table_name` annotation the table bears the identifier that the
/// annotation holds, whatever the type is called.
pub proof fn lemma_table_name_overridden(item: Declaration, i: int)
    requires
        model_of(item) is Ok,
        first_named(item.attrs@, "table_name"@) == Some(i),
    ensures
        item.attrs@[i].payload is Value,
        resolved_table_name(model_of(item)->Ok_0) == item.attrs@[i].payload->Value_0@,
{
}

/// Without a `primary_key` annotation the primary key is `id` alone.
pub proof fn lemma_primary_key_default(item: Declaration)
    requires
        model_of(item) is Ok,
        first_named(item.attrs@, "primary_key"@) is None,
    ensures
        model_of(item)->Ok_0.primary_key_names == seq!["id"@],
{
}

/// With a `primary_key` annotation the primary key is made of the words that
/// the annotation lists, in the order of the list, and there is at least one.
pub proof fn lemma_primary_key_listed(item: Declaration, i: int)
    requires
        model_of(item) is Ok,
        first_named(item.attrs@, "primary_key"@) == Some(i),
    ensures
        item.attrs@[i].payload is List,
        item.attrs@[i].payload->List_0@.len() > 0,
        forall|j: int|
            0 <= j < item.attrs@[i].payload->List_0@.len() ==> (
            #[trigger] item.attrs@[i].payload->List_0@[j]).payload is Word,
        model_of(item)->Ok_0.primary_key_names == names_of(item.attrs@[i].payload->List_0@),
{
    let items = item.attrs@[i].payload->List_0@;
    lemma_first_where(items, is_not_word());
}

/// A `primary_key` annotation that lists nothing is reported where it
/// stands: no model is built.
pub proof fn lemma_empty_primary_key_rejected(item: Declaration, i: int)
    requires
        item.data is Struct,
        ident_override(item.attrs@, "table_name"@) is Ok,
        first_named(item.attrs@, "primary_key"@) == Some(i),
        item.attrs@[i].payload matches Payload::List(items) && items@.len() == 0,
    ensures
        model_of(item) == Err::<ModelView, DiagnosticView>(
            item.attrs@[i].report(empty_key_message()),
        ),
{
    let items = item.attrs@[i].payload->List_0@;
    lemma_first_where(items, is_not_word());
}

/// The primary key of a model names at least one column.
pub proof fn lemma_primary_key_not_empty(item: Declaration)
    requires
        model_of(item) is Ok,
    ensures
        model_of(item)->Ok_0.primary_key_names.len() > 0,
{
}

/// A model has one field descriptor for each member of the declaration, in
/// the order of the declaration, and each bears its own position.
pub proof fn lemma_fields_in_order(item: Declaration)
    requires
        model_of(item) is Ok,
    ensures
        item.data is Struct,
        model_of(item)->Ok_0.fields.len() == item.data->Struct_0@.len(),
        positions_in_order(model_of(item)->Ok_0.fields),
        forall|i: int|
            0 <= i < item.data->Struct_0@.len() ==> Ok::<FieldView, DiagnosticView>(
                #[trigger] model_of(item)->Ok_0.fields[i],
            ) == extracted(item.data->Struct_0@[i], i),
{
    let members = item.data->Struct_0@;
    lemma_first_where(members, fails_extraction());
}

/// The model of a declaration that bears a name has a name, a primary key
/// of at least one column, and its field descriptors in the order of the
/// declaration.
pub proof fn lemma_model_well_formed(item: Declaration)
    requires
        item.well_formed(),
        model_of(item) is Ok,
    ensures
        model_invariant(model_of(item)->Ok_0),
{
    lemma_fields_in_order(item);
}

/// A text of one character holds one item of a kind where the character is
/// of that kind, and none where it is not.
proof fn lemma_filter_one(c: char, wanted: spec_fn(char) -> bool)
    ensures
        seq![c].filter(wanted).len() == if wanted(c) {
            1nat
        } else {
            0nat
        },
{
    reveal_with_fuel(Seq::filter, 2);
    assert(seq![c].drop_last() =~= Seq::<char>::empty());
}

/// The last character of a text counts once where it is of the kind wanted,
/// beside those before it.
proof fn lemma_filter_last(text: Seq<char>, wanted: spec_fn(char) -> bool)
    requires
        text.len() > 0,
    ensures
        text.filter(wanted).len() == text.drop_last().filter(wanted).len() + if wanted(
            text.last(),
        ) {
            1nat
        } else {
            0nat
        },
{
    reveal(Seq::filter);
}

/// Where no upper-case character of `tail` is an underscore or has one in
/// its lower-case form, the pieces of `tail` hold the underscores of `tail`
/// and one more for each upper-case character.
proof fn lemma_tail_underscores(tail: Seq<char>)
    requires
        forall|i: int|
            0 <= i < tail.len() && char_is_uppercase(#[trigger] tail[i]) ==> tail[i] != '_'
                && underscores(char_lowercase(tail[i])) == 0,
    ensures
        underscores(snake_tail(tail)) == underscores(tail) + capitals(tail),
    decreases tail.len(),
{
    if tail.len() == 0 {
        reveal(Seq::filter);
        assert(snake_tail(tail) =~= Seq::<char>::empty());
    } else {
        let front = tail.drop_last();
        let c = tail.last();
        assert(tail =~= front.push(c));
        assert(forall|i: int| 0 <= i < front.len() ==> front[i] == tail[i]);
        lemma_tail_underscores(front);
        lemma_snake_tail_push(front, c);
        Seq::filter_distributes_over_add(snake_tail(front), snake_piece(c), is_underscore());
        lemma_filter_last(tail, is_underscore());
        lemma_filter_last(tail, is_capital());
        if char_is_uppercase(c) {
            Seq::filter_distributes_over_add(seq!['_'], char_lowercase(c), is_underscore());
            lemma_filter_one('_', is_underscore());
        } else {
            lemma_filter_one(c, is_underscore());
        }
    }
}

/// Each upper-case character after the first brings one underscore of its
/// own, and the first brings none: where lower-casing neither adds an
/// underscore nor takes one away, the snake-case form holds the underscores
/// of the name and one more for each upper-case character after the first.
pub proof fn lemma_one_underscore_per_capital(name: Seq<char>)
    requires
        name.len() > 0,
    ensures
        lowering_keeps_underscores(name) ==> underscores(snake_case(name)) == underscores(name)
            + capitals(name.skip(1)),
{
    if lowering_keeps_underscores(name) {
        let tail = name.skip(1);
        assert(forall|i: int| 0 <= i < tail.len() ==> tail[i] == name[i + 1]);
        lemma_tail_underscores(tail);
        assert(name =~= seq![name[0]] + tail);
        Seq::filter_distributes_over_add(seq![name[0]], tail, is_underscore());
        Seq::filter_distributes_over_add(
            char_lowercase(name[0]),
            snake_tail(tail),
            is_underscore(),
        );
    }
}

} // verus!
