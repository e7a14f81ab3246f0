use vstd::prelude::*;
use vstd::string::*;
use crate::annotation::{ident_override, text_of, Annotation};
use crate::diagnostic::{Diagnostic, DiagnosticView, Location};
use crate::search::{first_where, lemma_first_where_at, lemma_first_where_none};

verus! {

/// One structural member of a record, as it was declared.
#[derive(Debug, PartialEq, Eq)]
pub struct Member {
    /// The member's name; `None` for a positional member.
    pub name: Option<String>,
    pub annotations: Vec<Annotation>,
    pub location: Location,
}

/// What code generation needs to know of one member.
#[derive(Debug, PartialEq, Eq)]
pub struct Field {
    /// The member's position in the declaration, counted from zero.
    pub index: usize,
    pub name: Option<String>,
    /// The column that the member is stored in, where an annotation says so.
    pub column_name_from_attribute: Option<String>,
    pub location: Location,
}

/// A field descriptor as a mathematical value.
pub struct FieldView {
    pub index: int,
    pub name: Option<Seq<char>>,
    pub column_name: Option<Seq<char>>,
    pub location: Location,
}

impl View for Field {
    type V = FieldView;

    open spec fn view(&self) -> FieldView {
        FieldView {
            index: self.index as int,
            name: text_of(self.name),
            column_name: text_of(self.column_name_from_attribute),
            location: self.location,
        }
    }
}

/// The given field descriptors as mathematical values, in order.
pub open spec fn fields_view(fields: Seq<Field>) -> Seq<FieldView> {
    fields.map_values(|field: Field| field@)
}

/// The column name that a member's annotations give it.
pub open spec fn column_name_of(member: Member) -> Result<Option<Seq<char>>, DiagnosticView> {
    ident_override(member.annotations@, "column_name"@)
}

/// The descriptor of the member that stands at position `index`, or the
/// report on its `column_name` annotation.
pub open spec fn extracted(member: Member, index: int) -> Result<FieldView, DiagnosticView> {
    match column_name_of(member) {
        Ok(column_name) => Ok(
            FieldView {
                index,
                name: text_of(member.name),
                column_name,
                location: member.location,
            },
        ),
        Err(report) => Err(report),
    }
}

/// The test that a member has no descriptor.
pub open spec fn fails_extraction() -> spec_fn(Member) -> bool {
    |member: Member| column_name_of(member) is Err
}

/// The descriptors of the given members, each with its position, or the
/// report on the first member that has none.
pub open spec fn extracted_all(members: Seq<Member>) -> Result<Seq<FieldView>, DiagnosticView> {
    match first_where(members, fails_extraction()) {
        Some(i) => Err(column_name_of(members[i])->Err_0),
        None => Ok(Seq::new(members.len(), |i: int| extracted(members[i], i)->Ok_0)),
    }
}

/// A copy of an optional string.
fn clone_text(text: &Option<String>) -> (copy: Option<String>)
    ensures
        text_of(copy) == text_of(*text),
{
    match text {
        Some(text) => Some(text.clone()),
        None => None,
    }
}

impl Field {
    /// Describes the member that stands at position `index`.
    pub fn from_struct_field(member: &Member, index: usize) -> (field: Result<Field, Diagnostic>)
        ensures
            match (field, extracted(*member, index as int)) {
                (Ok(found), Ok(expected)) => found@ == expected,
                (Err(report), Err(expected)) => report@ == expected,
                _ => false,
            },
    {
        match Annotation::ident_named(member.annotations.as_slice(), "column_name") {
            Ok(column_name) => Ok(
                Field {
                    index,
                    name: clone_text(&member.name),
                    column_name_from_attribute: column_name,
                    location: member.location,
                },
            ),
            Err(report) => Err(report),
        }
    }

    /// Describes every member, in the order of the declaration, and stops at
    /// the first that cannot be described.
    pub fn from_members(members: &[Member]) -> (fields: Result<Vec<Field>, Diagnostic>)
        ensures
            match (fields, extracted_all(members@)) {
                (Ok(found), Ok(expected)) => fields_view(found@) == expected,
                (Err(report), Err(expected)) => report@ == expected,
                _ => false,
            },
    {
        let mut fields: Vec<Field> = Vec::new();
        let mut i: usize = 0;
        while i < members.len()
            invariant
                i <= members.len(),
                fields@.len() == i,
                forall|j: int| 0 <= j < i ==> !fails_extraction()(#[trigger] members@[j]),
                forall|j: int|
                    0 <= j < i ==> (#[trigger] fields@[j])@ == extracted(members@[j], j)->Ok_0,
            decreases members.len() - i,
        {
            match Field::from_struct_field(&members[i], i) {
                Ok(field) => {
                    fields.push(field);
                },
                Err(report) => {
                    proof {
                        lemma_first_where_at(members@, fails_extraction(), i as int);
                    }
                    return Err(report);
                },
            }
            i += 1;
        }
        proof {
            lemma_first_where_none(members@, fails_extraction());
            assert(fields_view(fields@) =~= Seq::new(
                members@.len(),
                |i: int| extracted(members@[i], i)->Ok_0,
            ));
        }
        Ok(fields)
    }
}

} // verus!
