use vstd::prelude::*;

use crate::migration::schema::{
    column, column_view, key_column, text, ColumnKind, ColumnKindView, ColumnSpec, SchemaChange,
    SchemaChangeView, TableSpec, TableSpecView,
};

verus! {

/// The table of clients and its columns.
#[derive(Debug, Clone, Copy, PartialEq, Eq, Structural)]
pub enum Clients {
    Table,
    Id,
    Uuid,
    Name,
    Secret,
    RedirectUri,
    Scope,
}

/// The name of a table or column of the clients' table.
pub open spec fn clients_iden(c: Clients) -> Seq<char> {
    match c {
        Clients::Table => "clients"@,
        Clients::Id => "id"@,
        Clients::Uuid => "uuid"@,
        Clients::Name => "name"@,
        Clients::Secret => "secret"@,
        Clients::RedirectUri => "redirect_uri"@,
        Clients::Scope => "scope"@,
    }
}

impl Clients {
    /// The name in the database.
    pub fn name(&self) -> (n: &'static str)
        ensures
            n@ == clients_iden(*self),
    {
        match self {
            Clients::Table => "clients",
            Clients::Id => "id",
            Clients::Uuid => "uuid",
            Clients::Name => "name",
            Clients::Secret => "secret",
            Clients::RedirectUri => "redirect_uri",
            Clients::Scope => "scope",
        }
    }
}

/// The migration that creates the table of clients.
pub struct Migration;

/// The table of clients: an integer key and five text columns.
pub open spec fn clients_table() -> TableSpecView {
    TableSpecView {
        name: clients_iden(Clients::Table),
        if_not_exists: true,
        columns: seq![
            column_view(clients_iden(Clients::Id), ColumnKindView::Integer, true),
            column_view(clients_iden(Clients::Uuid), ColumnKindView::Text, false),
            column_view(clients_iden(Clients::Name), ColumnKindView::Text, false),
            column_view(clients_iden(Clients::Secret), ColumnKindView::Text, false),
            column_view(clients_iden(Clients::RedirectUri), ColumnKindView::Text, false),
            column_view(clients_iden(Clients::Scope), ColumnKindView::Text, false),
        ],
        foreign_keys: Seq::empty(),
    }
}

/// Creates the table of clients where it does not exist.
pub open spec fn up_view() -> SchemaChangeView {
    SchemaChangeView::CreateTable { table: clients_table() }
}

/// Drops the table of clients.
pub open spec fn down_view() -> SchemaChangeView {
    SchemaChangeView::DropTable { name: clients_iden(Clients::Table) }
}

impl Migration {
    /// The migration's name.
    pub fn name(&self) -> (n: &'static str)
        ensures
            n@ == "m20220720_125359_client"@,
    {
        "m20220720_125359_client"
    }

    /// The change that applies the migration.
    pub fn up(&self) -> (c: SchemaChange)
        ensures
            c@ == up_view(),
    {
        let mut columns: Vec<ColumnSpec> = Vec::new();
        columns.push(key_column(Clients::Id.name()));
        columns.push(column(Clients::Uuid.name(), ColumnKind::Text));
        columns.push(column(Clients::Name.name(), ColumnKind::Text));
        columns.push(column(Clients::Secret.name(), ColumnKind::Text));
        columns.push(column(Clients::RedirectUri.name(), ColumnKind::Text));
        columns.push(column(Clients::Scope.name(), ColumnKind::Text));
        let table = TableSpec {
            name: text(Clients::Table.name()),
            if_not_exists: true,
            columns,
            foreign_keys: Vec::new(),
        };
        assert(table@.columns =~= clients_table().columns);
        assert(table@.foreign_keys =~= clients_table().foreign_keys);
        SchemaChange::CreateTable { table }
    }

    /// The change that reverts the migration.
    pub fn down(&self) -> (c: SchemaChange)
        ensures
            c@ == down_view(),
    {
        SchemaChange::DropTable { name: text(Clients::Table.name()) }
    }
}

} // verus!
