use vstd::prelude::*;

use crate::migration::m20220702_125358_response_type as response_type;
use crate::migration::m20220720_125359_client as client;
use crate::migration::m20220720_125360_requests as requests;
use crate::migration::m20220801_214142_code as code;
use crate::migration::schema::{
    text, ColumnKindView, ForeignKeySpecView, SchemaChange, SchemaChangeView, TableSpecView,
};

verus! {

/// A migration: its name, the change that applies it and the change that
/// reverts it.
#[derive(Debug)]
pub struct MigrationStep {
    pub name: String,
    pub up: SchemaChange,
    pub down: SchemaChange,
}

pub struct MigrationStepView {
    pub name: Seq<char>,
    pub up: SchemaChangeView,
    pub down: SchemaChangeView,
}

impl View for MigrationStep {
    type V = MigrationStepView;

    open spec fn view(&self) -> MigrationStepView {
        MigrationStepView { name: self.name@, up: self.up@, down: self.down@ }
    }
}

/// The migrations, in the order in which they apply.
pub open spec fn migrations_view() -> Seq<MigrationStepView> {
    seq![
        MigrationStepView {
            name: "m20220702_125358_response_type"@,
            up: response_type::up_view(),
            down: response_type::down_view(),
        },
        MigrationStepView {
            name: "m20220720_125359_client"@,
            up: client::up_view(),
            down: client::down_view(),
        },
        MigrationStepView {
            name: "m20220720_125360_requests"@,
            up: requests::up_view(),
            down: requests::down_view(),
        },
        MigrationStepView {
            name: "m20220801_214142_code"@,
            up: code::up_view(),
            down: code::down_view(),
        },
    ]
}

/// The set of the database's migrations.
pub struct Migrator;

impl Migrator {
    /// The migrations, in the order in which they apply.
    pub fn migrations() -> (m: Vec<MigrationStep>)
        ensures
            m@.map_values(|s: MigrationStep| s@) == migrations_view(),
    {
        let mut m: Vec<MigrationStep> = Vec::new();
        let r = response_type::Migration;
        m.push(MigrationStep { name: text(r.name()), up: r.up(), down: r.down() });
        let c = client::Migration;
        m.push(MigrationStep { name: text(c.name()), up: c.up(), down: c.down() });
        let q = requests::Migration;
        m.push(MigrationStep { name: text(q.name()), up: q.up(), down: q.down() });
        let k = code::Migration;
        m.push(MigrationStep { name: text(k.name()), up: k.up(), down: k.down() });
        assert(m@.map_values(|s: MigrationStep| s@) =~= migrations_view());
        m
    }
}

/// `table` has a column `name`.
pub open spec fn has_column(table: TableSpecView, name: Seq<char>) -> bool {
    exists|k: int| 0 <= k < table.columns.len() && #[trigger] table.columns[k].name == name
}

/// `table` has a primary-key column `name`.
pub open spec fn has_key_column(table: TableSpecView, name: Seq<char>) -> bool {
    exists|k: int|
        0 <= k < table.columns.len() && #[trigger] table.columns[k].name == name
            && table.columns[k].primary_key
}

/// The table created by `change`, where it creates one.
pub open spec fn created_table(change: SchemaChangeView) -> Option<TableSpecView> {
    match change {
        SchemaChangeView::CreateTable { table } => Some(table),
        _ => None,
    }
}

/// A migration before the `i`-th creates the table that `key` refers to,
/// with the referred column as a primary key.
pub open spec fn key_target_created_before(
    steps: Seq<MigrationStepView>,
    i: int,
    key: ForeignKeySpecView,
) -> bool {
    exists|j: int|
        {
            &&& 0 <= j < i
            &&& #[trigger] created_table(steps[j].up) matches Some(t)
            &&& t.name == key.to_table
            &&& has_key_column(t, key.to_column)
        }
}

/// A migration before the `i`-th creates the enumerated type `name`.
pub open spec fn enum_created_before(steps: Seq<MigrationStepView>, i: int, name: Seq<char>) -> bool {
    exists|j: int|
        {
            &&& 0 <= j < i
            &&& #[trigger] steps[j].up matches SchemaChangeView::CreateEnumType { name: n, .. }
            &&& n == name
        }
}

/// A column of type `kind`, created by the `i`-th migration, is of a type
/// that exists by then.
pub open spec fn kind_refers_backwards(
    steps: Seq<MigrationStepView>,
    i: int,
    kind: ColumnKindView,
) -> bool {
    match kind {
        ColumnKindView::Enumeration { enum_name, .. } => enum_created_before(steps, i, enum_name),
        _ => true,
    }
}

/// What the `i`-th migration creates refers only to what it creates itself
/// or to what earlier migrations created.
pub open spec fn refers_backwards(steps: Seq<MigrationStepView>, i: int) -> bool {
    match created_table(steps[i].up) {
        Some(t) => {
            &&& forall|k: int|
                0 <= k < t.foreign_keys.len() ==> {
                    &&& (#[trigger] t.foreign_keys[k]).from_table == t.name
                    &&& has_column(t, t.foreign_keys[k].from_column)
                    &&& key_target_created_before(steps, i, t.foreign_keys[k])
                }
            &&& forall|k: int|
                0 <= k < t.columns.len() ==> kind_refers_backwards(
                    steps,
                    i,
                    (#[trigger] t.columns[k]).kind,
                )
        },
        None => true,
    }
}

/// `down` removes what `up` creates.
pub open spec fn undoes(down: SchemaChangeView, up: SchemaChangeView) -> bool {
    match up {
        SchemaChangeView::CreateTable { table } => down == SchemaChangeView::DropTable {
            name: table.name,
        },
        SchemaChangeView::CreateEnumType { name, .. } => down == SchemaChangeView::DropType { name },
        _ => false,
    }
}

/// Applied in order, each migration's foreign keys refer to the primary key
/// of a table an earlier migration created, from a column of its own table,
/// and each enumerated column's type was created by an earlier migration.
pub proof fn lemma_migrations_refer_backwards()
    ensures
        forall|i: int| 0 <= i < migrations_view().len() ==> refers_backwards(migrations_view(), i),
{
    let steps = migrations_view();
    let c = client::clients_table();
    let q = requests::requests_table();
    let k = code::codes_table();
    assert(refers_backwards(steps, 0));
    assert(refers_backwards(steps, 1));
    assert(created_table(steps[1].up) == Some(c));
    assert(has_key_column(c, c.columns[0].name));
    assert(created_table(steps[2].up) == Some(q));
    assert(has_column(q, q.columns[2].name));
    assert(key_target_created_before(steps, 2, q.foreign_keys[0]));
    assert(enum_created_before(steps, 2, response_type::response_type_enum_name()));
    assert(refers_backwards(steps, 2));
    assert(has_column(k, k.columns[2].name));
    assert(has_key_column(q, q.columns[0].name));
    assert(key_target_created_before(steps, 3, k.foreign_keys[0]));
    assert(refers_backwards(steps, 3));
}

/// Each migration's reverting change removes what its applying change
/// creates.
pub proof fn lemma_migrations_revert()
    ensures
        forall|i: int|
            0 <= i < migrations_view().len() ==> undoes(
                #[trigger] migrations_view()[i].down,
                migrations_view()[i].up,
            ),
{
}

/// No two migrations create tables or types of the same name.
pub proof fn lemma_migrations_create_distinct_names()
    ensures
        forall|i: int, j: int|
            0 <= i < j < migrations_view().len() ==> created_name(
                #[trigger] migrations_view()[i].up,
            ) != created_name(#[trigger] migrations_view()[j].up),
{
    reveal_strlit("response_type");
    reveal_strlit("clients");
    reveal_strlit("requests");
    reveal_strlit("codes");
    assert("response_type"@.len() != "clients"@.len());
    assert("response_type"@.len() != "requests"@.len());
    assert("response_type"@.len() != "codes"@.len());
    assert("clients"@.len() != "requests"@.len());
    assert("clients"@.len() != "codes"@.len());
    assert("requests"@.len() != "codes"@.len());
}

/// The column of `t` that `key` refers from and the primary-key column it
/// refers to, in a table created before the `i`-th migration, exist and are
/// of the same type.
pub open spec fn key_kind_matches(
    steps: Seq<MigrationStepView>,
    i: int,
    t: TableSpecView,
    key: ForeignKeySpecView,
) -> bool {
    exists|a: int, j: int, b: int|
        #![trigger t.columns[a], created_table(steps[j].up), created_table(steps[j].up)->0.columns[b]]
        {
            &&& 0 <= a < t.columns.len()
            &&& t.columns[a].name == key.from_column
            &&& 0 <= j < i
            &&& created_table(steps[j].up) is Some
            &&& created_table(steps[j].up)->0.name == key.to_table
            &&& 0 <= b < created_table(steps[j].up)->0.columns.len()
            &&& created_table(steps[j].up)->0.columns[b].name == key.to_column
            &&& created_table(steps[j].up)->0.columns[b].primary_key
            &&& t.columns[a].kind == created_table(steps[j].up)->0.columns[b].kind
        }
}

/// No two columns of `t` have the same name.
pub open spec fn column_names_distinct(t: TableSpecView) -> bool {
    forall|a: int, b: int|
        0 <= a < t.columns.len() && 0 <= b < t.columns.len() && a != b ==> #[trigger] t.columns[a].name
            != #[trigger] t.columns[b].name
}

/// Every table the migrations create names each of its columns once, and each
/// of its foreign keys goes from a column of the same type as the
/// primary-key column it refers to, in a table created earlier.
pub proof fn lemma_foreign_key_types_match()
    ensures
        forall|i: int|
            0 <= i < migrations_view().len() ==> (#[trigger] created_table(migrations_view()[i].up)
                matches Some(t) ==> {
                &&& column_names_distinct(t)
                &&& forall|k: int|
                    0 <= k < t.foreign_keys.len() ==> key_kind_matches(
                        migrations_view(),
                        i,
                        t,
                        #[trigger] t.foreign_keys[k],
                    )
            }),
{
    reveal_strlit("id");
    reveal_strlit("uuid");
    reveal_strlit("name");
    reveal_strlit("secret");
    reveal_strlit("redirect_uri");
    reveal_strlit("scope");
    reveal_strlit("client_id");
    reveal_strlit("csrf_token");
    reveal_strlit("request_type");
    reveal_strlit("request_id");
    let steps = migrations_view();
    let c = client::clients_table();
    let q = requests::requests_table();
    let k = code::codes_table();
    assert("uuid"@[0] != "name"@[0]);
    assert("redirect_uri"@[2] != "request_type"@[2]);
    assert("csrf_token"@[0] != "request_id"@[0]);
    assert forall|a: int, b: int|
        0 <= a < c.columns.len() && 0 <= b < c.columns.len() && a != b implies #[trigger] c.columns[a].name
        != #[trigger] c.columns[b].name by {
        let na = c.columns[a].name;
        let nb = c.columns[b].name;
        if na == nb {
            assert(na.len() == nb.len());
            assert(na[0] == nb[0]);
        }
    }
    assert forall|a: int, b: int|
        0 <= a < q.columns.len() && 0 <= b < q.columns.len() && a != b implies #[trigger] q.columns[a].name
        != #[trigger] q.columns[b].name by {
        let na = q.columns[a].name;
        let nb = q.columns[b].name;
        if na == nb {
            assert(na.len() == nb.len());
            assert(na[0] == nb[0]);
            assert(na[2] == nb[2]);
        }
    }
    assert(column_names_distinct(k));
    assert(created_table(steps[1].up) == Some(c));
    assert(created_table(steps[2].up) == Some(q));
    assert(created_table(steps[3].up) == Some(k));
    assert(q.columns[2].name == q.foreign_keys[0].from_column);
    assert(c.columns[0].name == q.foreign_keys[0].to_column);
    assert(created_table(steps[1].up)->0.columns[0] == c.columns[0]);
    assert(q.columns[2].kind == created_table(steps[1].up)->0.columns[0].kind);
    assert(key_kind_matches(steps, 2, q, q.foreign_keys[0]));
    assert(k.columns[2].name == k.foreign_keys[0].from_column);
    assert(q.columns[0].name == k.foreign_keys[0].to_column);
    assert(created_table(steps[2].up)->0.columns[0] == q.columns[0]);
    assert(k.columns[2].kind == created_table(steps[2].up)->0.columns[0].kind);
    assert(key_kind_matches(steps, 3, k, k.foreign_keys[0]));
}

/// `t` has a column `name` of type `kind`.
pub open spec fn has_column_of_kind(t: TableSpecView, name: Seq<char>, kind: ColumnKindView) -> bool {
    exists|a: int| 0 <= a < t.columns.len() && #[trigger] t.columns[a].name == name && t.columns[a].kind == kind
}

/// The records the library decides on fit the tables the migrations create:
/// each table has exactly one column per field of its record, integer for the
/// integer fields, text for the text fields, and for the request type a
/// value of the database type whose values are the response types' names;
/// every column is not null.
pub proof fn lemma_records_fit_tables()
    ensures
        ({
            let t = created_table(migrations_view()[1].up)->0;
            &&& t.name == "clients"@
            &&& t.columns.len() == 6
            &&& has_column_of_kind(t, "id"@, ColumnKindView::Integer)
            &&& has_column_of_kind(t, "uuid"@, ColumnKindView::Text)
            &&& has_column_of_kind(t, "name"@, ColumnKindView::Text)
            &&& has_column_of_kind(t, "secret"@, ColumnKindView::Text)
            &&& has_column_of_kind(t, "redirect_uri"@, ColumnKindView::Text)
            &&& has_column_of_kind(t, "scope"@, ColumnKindView::Text)
        }),
        ({
            let t = created_table(migrations_view()[2].up)->0;
            &&& t.name == "requests"@
            &&& t.columns.len() == 7
            &&& has_column_of_kind(t, "id"@, ColumnKindView::Integer)
            &&& has_column_of_kind(t, "uuid"@, ColumnKindView::Text)
            &&& has_column_of_kind(t, "client_id"@, ColumnKindView::Integer)
            &&& has_column_of_kind(t, "scope"@, ColumnKindView::Text)
            &&& has_column_of_kind(t, "redirect_uri"@, ColumnKindView::Text)
            &&& has_column_of_kind(t, "csrf_token"@, ColumnKindView::Text)
            &&& exists|a: int|
                {
                    &&& 0 <= a < t.columns.len()
                    &&& #[trigger] t.columns[a].name == "request_type"@
                    &&& t.columns[a].kind matches ColumnKindView::Enumeration { enum_name, .. }
                    &&& migrations_view()[0].up == (SchemaChangeView::CreateEnumType {
                        name: enum_name,
                        values: seq![
                            response_type::response_type_value(response_type::ResponseType::Code),
                            response_type::response_type_value(response_type::ResponseType::Other),
                        ],
                    })
                }
        }),
        ({
            let t = created_table(migrations_view()[3].up)->0;
            &&& t.name == "codes"@
            &&& t.columns.len() == 3
            &&& has_column_of_kind(t, "id"@, ColumnKindView::Integer)
            &&& has_column_of_kind(t, "uuid"@, ColumnKindView::Text)
            &&& has_column_of_kind(t, "request_id"@, ColumnKindView::Integer)
        }),
        forall|i: int, a: int|
            1 <= i < migrations_view().len() && 0 <= a < created_table(
                migrations_view()[i].up,
            )->0.columns.len() ==> (#[trigger] created_table(migrations_view()[i].up)->0.columns[a]).not_null,
{
    let c = client::clients_table();
    let q = requests::requests_table();
    let k = code::codes_table();
    assert(c.columns[0].name == "id"@);
    assert(c.columns[1].name == "uuid"@);
    assert(c.columns[2].name == "name"@);
    assert(c.columns[3].name == "secret"@);
    assert(c.columns[4].name == "redirect_uri"@);
    assert(c.columns[5].name == "scope"@);
    assert(q.columns[0].name == "id"@);
    assert(q.columns[1].name == "uuid"@);
    assert(q.columns[2].name == "client_id"@);
    assert(q.columns[3].name == "scope"@);
    assert(q.columns[4].name == "redirect_uri"@);
    assert(q.columns[5].name == "csrf_token"@);
    assert(q.columns[6].name == "request_type"@);
    assert(k.columns[0].name == "id"@);
    assert(k.columns[1].name == "uuid"@);
    assert(k.columns[2].name == "request_id"@);
}

/// The name of the table or type that `change` creates (empty where it
/// creates none).
pub open spec fn created_name(change: SchemaChangeView) -> Seq<char> {
    match change {
        SchemaChangeView::CreateTable { table } => table.name,
        SchemaChangeView::CreateEnumType { name, .. } => name,
        _ => Seq::empty(),
    }
}

} // verus!
