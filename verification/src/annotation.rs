use vstd::prelude::*;
use vstd::string::*;
use crate::diagnostic::{Diagnostic, DiagnosticView, Location};
use crate::search::{first_where, lemma_first_where_at, lemma_first_where_none};

verus! {

/// `str`'s `==`: two string slices are equal exactly when they hold the same
/// characters.
pub assume_specification[ <str as PartialEq>::eq ](left: &str, right: &str) -> (same: bool)
    ensures
        same == (left@ == right@),
;

/// What an annotation carries besides its name.
#[derive(Debug, PartialEq, Eq)]
pub enum Payload {
    /// Nothing: the annotation is a bare word.
    Word,
    /// A single identifier, as in `name = "value"`.
    Value(String),
    /// A list of nested annotations, as in `name(a, b)`.
    List(Vec<Annotation>),
    /// Anything else, such as a number.
    Other,
}

/// A piece of metadata attached to a declaration or to one of its members.
#[derive(Debug, PartialEq, Eq)]
pub struct Annotation {
    pub name: String,
    pub payload: Payload,
    pub location: Location,
}

/// The text of the report on an annotation that is not a list.
pub open spec fn list_form_message(name: Seq<char>) -> Seq<char> {
    "`"@ + name + "` must be in the form `"@ + name + "(...)`"@
}

/// The text of the report on an annotation that is not a bare word.
pub open spec fn word_form_message(name: Seq<char>) -> Seq<char> {
    "`"@ + name + "` must be a bare word"@
}

/// The text of the report on an annotation that holds no single identifier.
pub open spec fn value_form_message(name: Seq<char>) -> Seq<char> {
    "`"@ + name + "` must be in the form `"@ + name + " = \"value\"`"@
}

/// The names of the given annotations, in order.
pub open spec fn names_of(items: Seq<Annotation>) -> Seq<Seq<char>> {
    items.map_values(|item: Annotation| item.name@)
}

/// The position of the first annotation of `attrs` that is called `name`.
pub open spec fn first_named(attrs: Seq<Annotation>, name: Seq<char>) -> Option<int> {
    first_where(attrs, is_named(name))
}

/// The test that an annotation is called `name`.
pub open spec fn is_named(name: Seq<char>) -> spec_fn(Annotation) -> bool {
    |attr: Annotation| attr.name@ == name
}

/// The test that an annotation is more than a bare word.
pub open spec fn is_not_word() -> spec_fn(Annotation) -> bool {
    |item: Annotation| !(item.payload is Word)
}

/// The position of the first of `items` that is not a bare word.
pub open spec fn first_not_word(items: Seq<Annotation>) -> Option<int> {
    first_where(items, is_not_word())
}

/// The words of a list of nested annotations: their names in order where
/// each is a bare word, and the report on the first that is not.
pub open spec fn words_of(items: Seq<Annotation>) -> Result<Seq<Seq<char>>, DiagnosticView> {
    match first_not_word(items) {
        Some(i) => Err(items[i].report(word_form_message(items[i].name@))),
        None => Ok(names_of(items)),
    }
}

/// The text of an optional string.
pub open spec fn text_of(text: Option<String>) -> Option<Seq<char>> {
    match text {
        Some(text) => Some(text@),
        None => None,
    }
}

/// The identifier that the first annotation called `name` holds: none where
/// no annotation bears the name, and a report where the one found holds no
/// single identifier.
pub open spec fn ident_override(attrs: Seq<Annotation>, name: Seq<char>) -> Result<
    Option<Seq<char>>,
    DiagnosticView,
> {
    match first_named(attrs, name) {
        Some(i) => match attrs[i].ident_text() {
            Ok(ident) => Ok(Some(ident)),
            Err(report) => Err(report),
        },
        None => Ok(None),
    }
}

impl Annotation {
    /// The report that points at this annotation and bears `message`.
    pub open spec fn report(&self, message: Seq<char>) -> DiagnosticView {
        DiagnosticView { location: self.location, message }
    }

    /// The nested annotations of a list; any other payload is reported.
    pub open spec fn list_items(&self) -> Result<Seq<Annotation>, DiagnosticView> {
        match self.payload {
            Payload::List(items) => Ok(items@),
            _ => Err(self.report(list_form_message(self.name@))),
        }
    }

    /// The name of a bare word; an annotation with a payload is reported.
    pub open spec fn word_text(&self) -> Result<Seq<char>, DiagnosticView> {
        match self.payload {
            Payload::Word => Ok(self.name@),
            _ => Err(self.report(word_form_message(self.name@))),
        }
    }

    /// The single identifier that the annotation holds; any other payload is
    /// reported.
    pub open spec fn ident_text(&self) -> Result<Seq<char>, DiagnosticView> {
        match self.payload {
            Payload::Value(ident) => Ok(ident@),
            _ => Err(self.report(value_form_message(self.name@))),
        }
    }

    /// The words of the list that the annotation holds, in the order of the
    /// list; the first failure on the way is reported.
    pub open spec fn word_list(&self) -> Result<Seq<Seq<char>>, DiagnosticView> {
        match self.list_items() {
            Ok(items) => words_of(items),
            Err(report) => Err(report),
        }
    }

    /// Finds the first annotation called `name`, if there is one.
    pub fn with_name<'a>(attrs: &'a [Annotation], name: &str) -> (found: Option<&'a Annotation>)
        ensures
            match first_named(attrs@, name@) {
                Some(i) => found == Some(&attrs@[i]),
                None => found is None,
            },
    {
        let mut i: usize = 0;
        while i < attrs.len()
            invariant
                i <= attrs.len(),
                forall|j: int| 0 <= j < i ==> !is_named(name@)(#[trigger] attrs@[j]),
            decreases attrs.len() - i,
        {
            if *attrs[i].name.as_str() == *name {
                proof {
                    lemma_first_where_at(attrs@, is_named(name@), i as int);
                }
                return Some(&attrs[i]);
            }
            i += 1;
        }
        proof {
            lemma_first_where_none(attrs@, is_named(name@));
        }
        None
    }

    /// Reads the payload as a list of nested annotations.
    pub fn nested(&self) -> (items: Result<&Vec<Annotation>, Diagnostic>)
        ensures
            match (items, self.list_items()) {
                (Ok(found), Ok(expected)) => found@ == expected,
                (Err(report), Err(expected)) => report@ == expected,
                _ => false,
            },
    {
        match &self.payload {
            Payload::List(items) => Ok(items),
            _ => {
                let mut message = quoted(self.name.as_str(), "` must be in the form `");
                message.append(self.name.as_str());
                message.append("(...)`");
                Err(Diagnostic::error(self.location, message))
            },
        }
    }

    /// Reads the annotation as a bare word.
    pub fn expect_word(&self) -> (word: Result<String, Diagnostic>)
        ensures
            match (word, self.word_text()) {
                (Ok(found), Ok(expected)) => found@ == expected,
                (Err(report), Err(expected)) => report@ == expected,
                _ => false,
            },
    {
        match &self.payload {
            Payload::Word => Ok(self.name.clone()),
            _ => {
                let message = quoted(self.name.as_str(), "` must be a bare word");
                Err(Diagnostic::error(self.location, message))
            },
        }
    }

    /// Reads the payload as a single identifier.
    pub fn expect_ident_value(&self) -> (ident: Result<String, Diagnostic>)
        ensures
            match (ident, self.ident_text()) {
                (Ok(found), Ok(expected)) => found@ == expected,
                (Err(report), Err(expected)) => report@ == expected,
                _ => false,
            },
    {
        match &self.payload {
            Payload::Value(ident) => Ok(ident.clone()),
            _ => {
                let mut message = quoted(self.name.as_str(), "` must be in the form `");
                message.append(self.name.as_str());
                message.append(" = \"value\"`");
                Err(Diagnostic::error(self.location, message))
            },
        }
    }

    /// Reads the payload as a list of bare words and hands out the words in
    /// the order of the list.
    pub fn expect_words(&self) -> (words: Result<Vec<String>, Diagnostic>)
        ensures
            match (words, self.word_list()) {
                (Ok(found), Ok(expected)) => strings_view(found@) == expected,
                (Err(report), Err(expected)) => report@ == expected,
                _ => false,
            },
    {
        let items = match self.nested() {
            Ok(items) => items,
            Err(report) => {
                return Err(report);
            },
        };
        let mut words: Vec<String> = Vec::new();
        let mut i: usize = 0;
        while i < items.len()
            invariant
                i <= items.len(),
                self.list_items() == Ok::<Seq<Annotation>, DiagnosticView>(items@),
                forall|j: int| 0 <= j < i ==> !is_not_word()(#[trigger] items@[j]),
                strings_view(words@) == names_of(items@.take(i as int)),
            decreases items.len() - i,
        {
            match items[i].expect_word() {
                Ok(word) => {
                    let ghost before = words@;
                    words.push(word);
                    assert(items@.take(i + 1) =~= items@.take(i as int).push(items@[i as int]));
                    assert(strings_view(words@) =~= strings_view(before).push(word@));
                    assert(names_of(items@.take(i + 1)) =~= names_of(items@.take(i as int)).push(
                        items@[i as int].name@,
                    ));
                },
                Err(report) => {
                    proof {
                        lemma_first_where_at(items@, is_not_word(), i as int);
                    }
                    return Err(report);
                },
            }
            i += 1;
        }
        proof {
            lemma_first_where_none(items@, is_not_word());
            assert(items@.take(i as int) =~= items@);
        }
        Ok(words)
    }

    /// Looks up the annotation called `name` and reads it as a single
    /// identifier. An absent annotation is no error.
    pub fn ident_named(attrs: &[Annotation], name: &str) -> (ident: Result<
        Option<String>,
        Diagnostic,
    >)
        ensures
            match (ident, ident_override(attrs@, name@)) {
                (Ok(found), Ok(expected)) => text_of(found) == expected,
                (Err(report), Err(expected)) => report@ == expected,
                _ => false,
            },
    {
        match Annotation::with_name(attrs, name) {
            Some(attr) => match attr.expect_ident_value() {
                Ok(ident) => Ok(Some(ident)),
                Err(report) => Err(report),
            },
            None => Ok(None),
        }
    }
}

/// The texts of the given strings, in order.
pub open spec fn strings_view(strings: Seq<String>) -> Seq<Seq<char>> {
    strings.map_values(|text: String| text@)
}

/// A back-quote, `name`, and then `rest`.
fn quoted(name: &str, rest: &str) -> (text: String)
    ensures
        text@ == "`"@ + name@ + rest@,
{
    let mut text = String::new();
    text.append("`");
    text.append(name);
    text.append(rest);
    assert(text@ =~= "`"@ + name@ + rest@);
    text
}

} // verus!
