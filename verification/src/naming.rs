use vstd::prelude::*;
use vstd::std_specs::iter::IteratorSpec;
use vstd::string::*;

verus! {

/// Whether a character has the Unicode property `Uppercase`.
pub uninterp spec fn char_is_uppercase(c: char) -> bool;

/// The characters that a character lower-cases to, in order.
pub uninterp spec fn char_lowercase(c: char) -> Seq<char>;

/// `char::is_uppercase`: the answer is a fixed property of the character,
/// which the contract names without spelling out the Unicode tables.
pub assume_specification[ char::is_uppercase ](c: char) -> (upper: bool)
    ensures
        upper == char_is_uppercase(c),
;

/// `String::push`: the character is appended at the end and nothing else
/// changes.
pub assume_specification[ String::push ](text: &mut String, c: char)
    ensures
        final(text)@ == old(text)@.push(c),
;

/// `char::to_lowercase`, collected into a `String`: the result holds the
/// characters of the lower-case mapping of `c`, in the order in which the
/// iterator yields them.
#[verifier::external_body]
fn lowercase_of(c: char) -> (lowered: String)
    ensures
        lowered@ == char_lowercase(c),
{
    c.to_lowercase().collect()
}

/// What one scanned character contributes: an underscore and the given
/// lower-case form where one is handed in, the character itself otherwise.
pub open spec fn scanned(c: char, lowered: Option<Seq<char>>) -> Seq<char> {
    match lowered {
        Some(l) => seq!['_'] + l,
        None => seq![c],
    }
}

/// What a character after the first contributes to the snake-case form.
pub open spec fn snake_piece(c: char) -> Seq<char> {
    scanned(
        c,
        if char_is_uppercase(c) {
            Some(char_lowercase(c))
        } else {
            None
        },
    )
}

/// The pieces of the characters of `tail`, one after the other.
pub open spec fn snake_tail(tail: Seq<char>) -> Seq<char> {
    tail.map_values(|c: char| snake_piece(c)).flatten()
}

/// The snake-case form of a non-empty name: the lower-case form of its first
/// character, then the pieces of the others, in order.
pub open spec fn snake_case(name: Seq<char>) -> Seq<char>
    recommends
        name.len() > 0,
{
    char_lowercase(name[0]) + snake_tail(name.skip(1))
}

/// The table name inferred from a type's name.
pub open spec fn inferred_table_name(name: Seq<char>) -> Seq<char>
    recommends
        name.len() > 0,
{
    snake_case(name).push('s')
}

/// The test that a character is an underscore.
pub open spec fn is_underscore() -> spec_fn(char) -> bool {
    |c: char| c == '_'
}

/// The test that a character is upper-case.
pub open spec fn is_capital() -> spec_fn(char) -> bool {
    |c: char| char_is_uppercase(c)
}

/// How many characters of `text` are underscores.
pub open spec fn underscores(text: Seq<char>) -> nat {
    text.filter(is_underscore()).len()
}

/// How many characters of `text` are upper-case.
pub open spec fn capitals(text: Seq<char>) -> nat {
    text.filter(is_capital()).len()
}

/// Lower-casing neither adds an underscore to `name` nor takes one away:
/// the lower-case form of the first character holds as many as the character
/// itself, and an upper-case character after the first is no underscore and
/// has none in its lower-case form.
pub open spec fn lowering_keeps_underscores(name: Seq<char>) -> bool {
    &&& underscores(char_lowercase(name[0])) == underscores(seq![name[0]])
    &&& forall|i: int|
        1 <= i < name.len() && char_is_uppercase(#[trigger] name[i]) ==> name[i] != '_'
            && underscores(char_lowercase(name[i])) == 0
}

/// One more character adds its own piece at the end and changes nothing
/// before it.
pub proof fn lemma_snake_tail_push(tail: Seq<char>, c: char)
    ensures
        snake_tail(tail.push(c)) == snake_tail(tail) + snake_piece(c),
{
    let pieces = tail.map_values(|c: char| snake_piece(c));
    assert(tail.push(c).map_values(|c: char| snake_piece(c)) =~= pieces.push(snake_piece(c)));
    pieces.lemma_flatten_push(snake_piece(c));
}

/// Appends to `result` what one scanned character contributes. `lowered` is
/// the lower-case form of an upper-case character, and `None` for any other.
pub fn push_scanned(result: &mut String, c: char, lowered: Option<&str>)
    ensures
        final(result)@ == old(result)@ + scanned(
            c,
            match lowered {
                Some(l) => Some(l@),
                None => None,
            },
        ),
{
    match lowered {
        Some(l) => {
            result.push('_');
            result.append(l);
            assert(result@ =~= old(result)@ + (seq!['_'] + l@));
        },
        None => {
            result.push(c);
            assert(result@ =~= old(result)@ + seq![c]);
        },
    }
}

/// Turns a camel-case name into snake case: the first character is
/// lower-cased; each later upper-case character becomes an underscore and its
/// lower-case form; every other character stays as it is.
pub fn camel_to_snake(name: &str) -> (result: String)
    requires
        name@.len() > 0,
    ensures
        result@ == snake_case(name@),
{
    broadcast use vstd::string::group_string_axioms;

    let mut rest = name.chars();
    let mut result = String::new();
    match rest.next() {
        Some(first) => {
            let lowered = lowercase_of(first);
            result.append(lowered.as_str());
        },
        None => {},
    }
    let ghost mut seen: Seq<char> = Seq::empty();
    assert(result@ =~= char_lowercase(name@[0]) + snake_tail(seen));
    assert(seen + rest.remaining() =~= name@.skip(1));
    loop
        invariant
            seen + rest.remaining() == name@.skip(1),
            result@ == char_lowercase(name@[0]) + snake_tail(seen),
            rest.decrease() is Some,
            name@.len() > 0,
        ensures
            seen == name@.skip(1),
        decreases rest.decrease()->0,
    {
        let ghost left = rest.remaining();
        match rest.next() {
            Some(character) => {
                if character.is_uppercase() {
                    let lowered = lowercase_of(character);
                    push_scanned(&mut result, character, Some(lowered.as_str()));
                } else {
                    push_scanned(&mut result, character, None);
                }
                proof {
                    lemma_snake_tail_push(seen, character);
                    assert(seen.push(character) + rest.remaining() =~= seen + left);
                    seen = seen.push(character);
                }
            },
            None => {
                assert(seen =~= name@.skip(1));
                break ;
            },
        }
    }
    result
}

/// The table name that a type's name stands for: its snake-case form with a
/// single `s` appended.
pub fn infer_table_name(name: &str) -> (result: String)
    requires
        name@.len() > 0,
    ensures
        result@ == inferred_table_name(name@),
{
    let mut result = camel_to_snake(name);
    result.push('s');
    result
}

} // verus!
