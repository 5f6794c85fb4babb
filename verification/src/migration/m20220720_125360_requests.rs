use vstd::prelude::*;

use crate::migration::m20220702_125358_response_type::response_type_enum_name;
use crate::migration::m20220720_125359_client::{clients_iden, Clients};
use crate::migration::schema::{
    column, column_view, foreign_key, foreign_key_view, key_column, text, ColumnKind,
    ColumnKindView, ColumnSpec, ForeignKeySpec, SchemaChange, SchemaChangeView, TableSpec,
    TableSpecView,
};

verus! {

/// The table of authorization requests and its columns.
#[derive(Debug, Clone, Copy, PartialEq, Eq, Structural)]
pub enum Requests {
    Id,
    Uuid,
    ClientId,
    Scope,
    RedirectUri,
    RequestType,
    Token,
    Table,
}

/// The name of a table or column of the requests' table.
pub open spec fn requests_iden(r: Requests) -> Seq<char> {
    match r {
        Requests::Id => "id"@,
        Requests::Uuid => "uuid"@,
        Requests::ClientId => "client_id"@,
        Requests::Scope => "scope"@,
        Requests::RedirectUri => "redirect_uri"@,
        Requests::RequestType => "request_type"@,
        Requests::Token => "csrf_token"@,
        Requests::Table => "requests"@,
    }
}

impl Requests {
    /// The name in the database.
    pub fn name(&self) -> (n: &'static str)
        ensures
            n@ == requests_iden(*self),
    {
        match self {
            Requests::Id => "id",
            Requests::Uuid => "uuid",
            Requests::ClientId => "client_id",
            Requests::Scope => "scope",
            Requests::RedirectUri => "redirect_uri",
            Requests::RequestType => "request_type",
            Requests::Token => "csrf_token",
            Requests::Table => "requests",
        }
    }
}

/// The migration that creates the table of authorization requests.
pub struct Migration;

/// The variants written for the request type column.
pub open spec fn request_type_variants() -> Seq<Seq<char>> {
    seq!["my_variant"@]
}

/// The table of authorization requests, each of which refers to its client.
pub open spec fn requests_table() -> TableSpecView {
    TableSpecView {
        name: requests_iden(Requests::Table),
        if_not_exists: true,
        columns: seq![
            column_view(requests_iden(Requests::Id), ColumnKindView::Integer, true),
            column_view(requests_iden(Requests::Uuid), ColumnKindView::Text, false),
            column_view(requests_iden(Requests::ClientId), ColumnKindView::Integer, false),
            column_view(requests_iden(Requests::Scope), ColumnKindView::Text, false),
            column_view(requests_iden(Requests::RedirectUri), ColumnKindView::Text, false),
            column_view(requests_iden(Requests::Token), ColumnKindView::Text, false),
            column_view(
                requests_iden(Requests::RequestType),
                ColumnKindView::Enumeration {
                    enum_name: response_type_enum_name(),
                    variants: request_type_variants(),
                },
                false,
            ),
        ],
        foreign_keys: seq![
            foreign_key_view(
                "fk-request-client_id"@,
                requests_iden(Requests::Table),
                requests_iden(Requests::ClientId),
                clients_iden(Clients::Table),
                clients_iden(Clients::Id),
            ),
        ],
    }
}

/// Creates the table of authorization requests where it does not exist.
pub open spec fn up_view() -> SchemaChangeView {
    SchemaChangeView::CreateTable { table: requests_table() }
}

/// Drops the table of authorization requests.
pub open spec fn down_view() -> SchemaChangeView {
    SchemaChangeView::DropTable { name: requests_iden(Requests::Table) }
}

impl Migration {
    /// The migration's name.
    pub fn name(&self) -> (n: &'static str)
        ensures
            n@ == "m20220720_125360_requests"@,
    {
        "m20220720_125360_requests"
    }

    /// The change that applies the migration.
    pub fn up(&self) -> (c: SchemaChange)
        ensures
            c@ == up_view(),
    {
        let mut variants: Vec<String> = Vec::new();
        variants.push(text("my_variant"));
        assert(variants@.map_values(|v: String| v@) =~= request_type_variants());
        let mut columns: Vec<ColumnSpec> = Vec::new();
        columns.push(key_column(Requests::Id.name()));
        columns.push(column(Requests::Uuid.name(), ColumnKind::Text));
        columns.push(column(Requests::ClientId.name(), ColumnKind::Integer));
        columns.push(column(Requests::Scope.name(), ColumnKind::Text));
        columns.push(column(Requests::RedirectUri.name(), ColumnKind::Text));
        columns.push(column(Requests::Token.name(), ColumnKind::Text));
        columns.push(
            column(
                Requests::RequestType.name(),
                ColumnKind::Enumeration { enum_name: text("response_type"), variants },
            ),
        );
        let mut foreign_keys: Vec<ForeignKeySpec> = Vec::new();
        foreign_keys.push(
            foreign_key(
                "fk-request-client_id",
                Requests::Table.name(),
                Requests::ClientId.name(),
                Clients::Table.name(),
                Clients::Id.name(),
            ),
        );
        let table = TableSpec {
            name: text(Requests::Table.name()),
            if_not_exists: true,
            columns,
            foreign_keys,
        };
        assert(table@.columns =~= requests_table().columns);
        assert(table@.foreign_keys =~= requests_table().foreign_keys);
        SchemaChange::CreateTable { table }
    }

    /// The change that reverts the migration.
    pub fn down(&self) -> (c: SchemaChange)
        ensures
            c@ == down_view(),
    {
        SchemaChange::DropTable { name: text(Requests::Table.name()) }
    }
}

} // verus!
