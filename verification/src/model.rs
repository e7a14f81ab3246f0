use vstd::prelude::*;
use vstd::string::*;
use crate::annotation::{first_named, ident_override, strings_view, text_of, Annotation};
use crate::diagnostic::{Diagnostic, DiagnosticView, Location};
use crate::field::{extracted_all, fields_view, Field, FieldView, Member};
use crate::laws::lemma_model_well_formed;
use crate::naming::{infer_table_name, inferred_table_name};

verus! {

/// The lower-case form of a text, as `str::to_lowercase` computes it.
pub uninterp spec fn str_lowercase(text: Seq<char>) -> Seq<char>;

/// `str::to_lowercase`: the result is a fixed function of the text, which
/// the contract names without spelling out the Unicode tables.
pub assume_specification[ str::to_lowercase ](text: &str) -> (lowered: String)
    ensures
        lowered@ == str_lowercase(text@),
;

/// The structural shape of a declaration.
#[derive(Debug, PartialEq, Eq)]
pub enum Data {
    /// A plain record, with its members in the order of the declaration.
    Struct(Vec<Member>),
    Enum,
    Union,
}

/// A type declaration: its name, its annotations and its shape.
#[derive(Debug, PartialEq, Eq)]
pub struct Declaration {
    pub ident: String,
    pub attrs: Vec<Annotation>,
    pub data: Data,
}

/// The schema that a declaration stands for.
#[derive(Debug, PartialEq, Eq)]
pub struct Model {
    pub name: String,
    pub primary_key_names: Vec<String>,
    table_name_from_attribute: Option<String>,
    fields: Vec<Field>,
}

impl Declaration {
    /// A declaration bears a name.
    pub open spec fn well_formed(&self) -> bool {
        self.ident@.len() > 0
    }
}

/// A model as a mathematical value.
pub struct ModelView {
    pub name: Seq<char>,
    pub table_name_override: Option<Seq<char>>,
    pub primary_key_names: Seq<Seq<char>>,
    pub fields: Seq<FieldView>,
}

/// The text of the report on a declaration that is no plain record.
pub open spec fn shape_message() -> Seq<char> {
    "This derive can only be used on structs"@
}

/// The report on a declaration that is no plain record.
pub open spec fn shape_report() -> DiagnosticView {
    DiagnosticView { location: Location::CallSite, message: shape_message() }
}

/// The field descriptors of a declaration of the given shape.
pub open spec fn fields_of(data: Data) -> Result<Seq<FieldView>, DiagnosticView> {
    match data {
        Data::Struct(members) => extracted_all(members@),
        _ => Err(shape_report()),
    }
}

/// The text of the report on a `primary_key` annotation that lists nothing.
pub open spec fn empty_key_message() -> Seq<char> {
    "`primary_key` must name at least one column"@
}

/// The primary key that the given annotations name: the words of the first
/// `primary_key` annotation in their order, and `id` alone without one. An
/// annotation that is no list of bare words is reported, and so is one that
/// lists nothing.
pub open spec fn primary_key_of(attrs: Seq<Annotation>) -> Result<
    Seq<Seq<char>>,
    DiagnosticView,
> {
    match first_named(attrs, "primary_key"@) {
        Some(i) => match attrs[i].word_list() {
            Ok(words) => if words.len() > 0 {
                Ok(words)
            } else {
                Err(attrs[i].report(empty_key_message()))
            },
            Err(report) => Err(report),
        },
        None => Ok(seq!["id"@]),
    }
}

/// The model of a declaration, or the first report on the way to it: on its
/// shape, then on its `table_name` annotation, then on its `primary_key`
/// annotation, then on its members in their order.
pub open spec fn model_of(item: Declaration) -> Result<ModelView, DiagnosticView> {
    if !(item.data is Struct) {
        Err(shape_report())
    } else {
        match ident_override(item.attrs@, "table_name"@) {
            Err(report) => Err(report),
            Ok(table_name_override) => match primary_key_of(item.attrs@) {
                Err(report) => Err(report),
                Ok(primary_key_names) => match fields_of(item.data) {
                    Err(report) => Err(report),
                    Ok(fields) => Ok(
                        ModelView {
                            name: item.ident@,
                            table_name_override,
                            primary_key_names,
                            fields,
                        },
                    ),
                },
            },
        }
    }
}

/// The table that a model is stored in: the one its annotation names, else
/// the one inferred from its name.
pub open spec fn resolved_table_name(model: ModelView) -> Seq<char> {
    match model.table_name_override {
        Some(table_name) => table_name,
        None => inferred_table_name(model.name),
    }
}

/// The name of the module that holds the generated impl of a trait, given the
/// lower-case form of the type's name.
pub open spec fn dummy_module_name(trait_name: Seq<char>, lowered: Seq<char>) -> Seq<char> {
    "_impl_"@ + trait_name + "_for_"@ + lowered
}

/// Every descriptor bears its own position.
pub open spec fn positions_in_order(fields: Seq<FieldView>) -> bool {
    forall|i: int| 0 <= i < fields.len() ==> (#[trigger] fields[i]).index == i
}

/// What holds of every model: it has a name, its primary key names at least
/// one column, and its field descriptors stand in the order of the
/// declaration.
pub open spec fn model_invariant(model: ModelView) -> bool {
    &&& model.name.len() > 0
    &&& model.primary_key_names.len() > 0
    &&& positions_in_order(model.fields)
}

/// Reads the primary key off the annotations of a declaration.
pub fn primary_key_from(attrs: &[Annotation]) -> (names: Result<Vec<String>, Diagnostic>)
    ensures
        match (names, primary_key_of(attrs@)) {
            (Ok(found), Ok(expected)) => strings_view(found@) == expected,
            (Err(report), Err(expected)) => report@ == expected,
            _ => false,
        },
{
    match Annotation::with_name(attrs, "primary_key") {
        Some(attr) => match attr.expect_words() {
            Ok(words) => {
                if words.len() > 0 {
                    Ok(words)
                } else {
                    let mut message = String::new();
                    message.append("`primary_key` must name at least one column");
                    assert(message@ =~= empty_key_message());
                    Err(Diagnostic::error(attr.location, message))
                }
            },
            Err(report) => Err(report),
        },
        None => Ok(default_primary_key()),
    }
}

/// Puts together the name of the module that holds the generated impl of
/// `trait_name`, from the lower-case form of the type's name.
pub fn compose_dummy_mod_name(trait_name: &str, lowered: &str) -> (name: String)
    ensures
        name@ == dummy_module_name(trait_name@, lowered@),
{
    let mut name = String::new();
    name.append("_impl_");
    name.append(trait_name);
    name.append("_for_");
    name.append(lowered);
    assert(name@ =~= "_impl_"@ + trait_name@ + "_for_"@ + lowered@);
    name
}

/// Describes the members of a plain record, in the order of the declaration.
/// Any other shape is reported at the call site.
pub fn fields_from_item_data(data: &Data) -> (fields: Result<Vec<Field>, Diagnostic>)
    ensures
        match (fields, fields_of(*data)) {
            (Ok(found), Ok(expected)) => fields_view(found@) == expected,
            (Err(report), Err(expected)) => report@ == expected,
            _ => false,
        },
{
    match data {
        Data::Struct(members) => Field::from_members(members.as_slice()),
        _ => Err(shape_error()),
    }
}

/// The report on a declaration that is no plain record.
fn shape_error() -> (report: Diagnostic)
    ensures
        report@ == shape_report(),
{
    let mut message = String::new();
    message.append("This derive can only be used on structs");
    assert(message@ =~= shape_message());
    Diagnostic::error(Location::CallSite, message)
}

impl View for Model {
    type V = ModelView;

    closed spec fn view(&self) -> ModelView {
        ModelView {
            name: self.name@,
            table_name_override: text_of(self.table_name_from_attribute),
            primary_key_names: strings_view(self.primary_key_names@),
            fields: fields_view(self.fields@),
        }
    }
}

impl Model {
    /// A model has a name, a primary key of at least one column, and its
    /// field descriptors in the order of the declaration.
    pub open spec fn well_formed(&self) -> bool {
        model_invariant(self@)
    }

    /// Builds the model of a declaration, or reports the first thing that is
    /// wrong with it.
    pub fn from_item(item: &Declaration) -> (model: Result<Model, Diagnostic>)
        requires
            item.well_formed(),
        ensures
            match (model, model_of(*item)) {
                (Ok(found), Ok(expected)) => found@ == expected && found.well_formed(),
                (Err(report), Err(expected)) => report@ == expected,
                _ => false,
            },
    {
        match &item.data {
            Data::Struct(_) => {},
            _ => {
                return Err(shape_error());
            },
        }
        let table_name_from_attribute = match Annotation::ident_named(
            item.attrs.as_slice(),
            "table_name",
        ) {
            Ok(ident) => ident,
            Err(report) => {
                return Err(report);
            },
        };
        let primary_key_names = match primary_key_from(item.attrs.as_slice()) {
            Ok(names) => names,
            Err(report) => {
                return Err(report);
            },
        };
        let fields = match fields_from_item_data(&item.data) {
            Ok(fields) => fields,
            Err(report) => {
                return Err(report);
            },
        };
        proof {
            lemma_model_well_formed(*item);
        }
        Ok(Model { name: item.ident.clone(), table_name_from_attribute, primary_key_names, fields })
    }

    /// The name of the table that the model is stored in.
    pub fn table_name(&self) -> (table_name: String)
        requires
            self@.table_name_override is None ==> self@.name.len() > 0,
        ensures
            table_name@ == resolved_table_name(self@),
    {
        match &self.table_name_from_attribute {
            Some(table_name) => table_name.clone(),
            None => infer_table_name(self.name.as_str()),
        }
    }

    /// The name of the module that holds the generated impl of `trait_name`
    /// for this model's type.
    pub fn dummy_mod_name(&self, trait_name: &str) -> (name: String)
        ensures
            name@ == dummy_module_name(trait_name@, str_lowercase(self@.name)),
    {
        let lowered = self.name.as_str().to_lowercase();
        compose_dummy_mod_name(trait_name, lowered.as_str())
    }

    /// The name of the type that the model was built from.
    pub fn name(&self) -> (name: &str)
        ensures
            name@ == self@.name,
    {
        self.name.as_str()
    }

    /// The names that make up the primary key, in their order.
    pub fn primary_key_names(&self) -> (names: &[String])
        ensures
            strings_view(names@) == self@.primary_key_names,
    {
        self.primary_key_names.as_slice()
    }

    /// The field descriptors, in the order of the declaration.
    pub fn fields(&self) -> (fields: &[Field])
        ensures
            fields_view(fields@) == self@.fields,
    {
        self.fields.as_slice()
    }
}

/// The primary key of a declaration that names none.
fn default_primary_key() -> (names: Vec<String>)
    ensures
        strings_view(names@) == seq!["id"@],
{
    let mut names: Vec<String> = Vec::new();
    names.push("id".to_owned());
    assert(strings_view(names@) =~= seq!["id"@]);
    names
}

} // verus!
