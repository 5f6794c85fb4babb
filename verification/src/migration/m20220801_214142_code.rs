use vstd::prelude::*;

use crate::migration::m20220720_125360_requests::{requests_iden, Requests};
use crate::migration::schema::{
    column, column_view, foreign_key, foreign_key_view, key_column, text, ColumnKind,
    ColumnKindView, ColumnSpec, ForeignKeySpec, SchemaChange, SchemaChangeView, TableSpec,
    TableSpecView,
};

verus! {

/// The table of authorization codes and its columns.
#[derive(Debug, Clone, Copy, PartialEq, Eq, Structural)]
enum Code {
    Table,
    Id,
    RequestId,
    Uuid,
}

/// The name of a table or column of the codes' table.
pub open spec fn code_iden_table() -> Seq<char> {
    "codes"@
}

spec fn code_iden(c: Code) -> Seq<char> {
    match c {
        Code::Table => code_iden_table(),
        Code::Id => "id"@,
        Code::RequestId => "request_id"@,
        Code::Uuid => "uuid"@,
    }
}

impl Code {
    fn name(&self) -> (n: &'static str)
        ensures
            n@ == code_iden(*self),
    {
        match self {
            Code::Table => "codes",
            Code::Id => "id",
            Code::RequestId => "request_id",
            Code::Uuid => "uuid",
        }
    }
}

/// The migration that creates the table of authorization codes.
pub struct Migration;

/// The table of authorization codes, each of which refers to its request.
pub open spec fn codes_table() -> TableSpecView {
    TableSpecView {
        name: code_iden_table(),
        if_not_exists: true,
        columns: seq![
            column_view("id"@, ColumnKindView::Integer, true),
            column_view("uuid"@, ColumnKindView::Text, false),
            column_view("request_id"@, ColumnKindView::Integer, false),
        ],
        foreign_keys: seq![
            foreign_key_view(
                "fk-code-request_id"@,
                code_iden_table(),
                "request_id"@,
                requests_iden(Requests::Table),
                requests_iden(Requests::Id),
            ),
        ],
    }
}

/// Creates the table of authorization codes where it does not exist.
pub open spec fn up_view() -> SchemaChangeView {
    SchemaChangeView::CreateTable { table: codes_table() }
}

/// Drops the table of authorization codes.
pub open spec fn down_view() -> SchemaChangeView {
    SchemaChangeView::DropTable { name: code_iden_table() }
}

impl Migration {
    /// The migration's name.
    pub fn name(&self) -> (n: &'static str)
        ensures
            n@ == "m20220801_214142_code"@,
    {
        "m20220801_214142_code"
    }

    /// The change that applies the migration.
    pub fn up(&self) -> (c: SchemaChange)
        ensures
            c@ == up_view(),
    {
        let mut columns: Vec<ColumnSpec> = Vec::new();
        columns.push(key_column(Code::Id.name()));
        columns.push(column(Code::Uuid.name(), ColumnKind::Text));
        columns.push(column(Code::RequestId.name(), ColumnKind::Integer));
        let mut foreign_keys: Vec<ForeignKeySpec> = Vec::new();
        foreign_keys.push(
            foreign_key(
                "fk-code-request_id",
                Code::Table.name(),
                Code::RequestId.name(),
                Requests::Table.name(),
                Requests::Id.name(),
            ),
        );
        let table = TableSpec {
            name: text(Code::Table.name()),
            if_not_exists: true,
            columns,
            foreign_keys,
        };
        assert(table@.columns =~= codes_table().columns);
        assert(table@.foreign_keys =~= codes_table().foreign_keys);
        SchemaChange::CreateTable { table }
    }

    /// The change that reverts the migration.
    pub fn down(&self) -> (c: SchemaChange)
        ensures
            c@ == down_view(),
    {
        SchemaChange::DropTable { name: text(Code::Table.name()) }
    }
}

} // verus!
