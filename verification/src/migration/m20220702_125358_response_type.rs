use vstd::prelude::*;

use crate::migration::schema::{SchemaChange, SchemaChangeView};
use crate::migration::schema::text;

verus! {

/// The kind of response an authorization request asks for.
#[derive(Debug, Clone, Copy, PartialEq, Eq, Structural)]
pub enum ResponseType {
    Code,
    Other,
}

/// The name under which a response type is stored in the database.
pub open spec fn response_type_value(r: ResponseType) -> Seq<char> {
    match r {
        ResponseType::Code => "code"@,
        ResponseType::Other => "other"@,
    }
}

impl ResponseType {
    /// The name under which the value is stored in the database.
    pub fn string_value(&self) -> (s: &'static str)
        ensures
            s@ == response_type_value(*self),
    {
        match self {
            ResponseType::Code => "code",
            ResponseType::Other => "other",
        }
    }
}

/// The database type that holds response types.
pub open spec fn response_type_enum_name() -> Seq<char> {
    "response_type"@
}

/// The migration that creates the database type of response types.
pub struct Migration;

/// Creates the type `response_type`, whose values are those of the
/// response types.
pub open spec fn up_view() -> SchemaChangeView {
    SchemaChangeView::CreateEnumType {
        name: response_type_enum_name(),
        values: seq![response_type_value(ResponseType::Code), response_type_value(ResponseType::Other)],
    }
}

/// Drops the type `response_type`.
pub open spec fn down_view() -> SchemaChangeView {
    SchemaChangeView::DropType { name: response_type_enum_name() }
}

impl Migration {
    /// The migration's name.
    pub fn name(&self) -> (n: &'static str)
        ensures
            n@ == "m20220702_125358_response_type"@,
    {
        "m20220702_125358_response_type"
    }

    /// The change that applies the migration.
    pub fn up(&self) -> (c: SchemaChange)
        ensures
            c@ == up_view(),
    {
        let mut values: Vec<String> = Vec::new();
        values.push(text(ResponseType::Code.string_value()));
        values.push(text(ResponseType::Other.string_value()));
        assert(values@.map_values(|v: String| v@) =~= seq![
            response_type_value(ResponseType::Code),
            response_type_value(ResponseType::Other),
        ]);
        SchemaChange::CreateEnumType { name: text("response_type"), values }
    }

    /// The change that reverts the migration.
    pub fn down(&self) -> (c: SchemaChange)
        ensures
            c@ == down_view(),
    {
        SchemaChange::DropType { name: text("response_type") }
    }
}

} // verus!
