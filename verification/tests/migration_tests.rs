use oauth_server::migration::m20220702_125358_response_type::ResponseType;
use oauth_server::migration::m20220720_125359_client::Clients;
use oauth_server::migration::m20220720_125360_requests::Requests;
use oauth_server::migration::migrator::Migrator;
use oauth_server::migration::schema::{ColumnKind, ReferentialAction, SchemaChange};

#[test]
fn migrations_come_in_order() {
    let m = Migrator::migrations();
    let names: Vec<&str> = m.iter().map(|s| s.name.as_str()).collect();
    assert_eq!(
        names,
        vec![
            "m20220702_125358_response_type",
            "m20220720_125359_client",
            "m20220720_125360_requests",
            "m20220801_214142_code"
        ]
    );
}

#[test]
fn response_type_migration_creates_the_enum_type() {
    let m = Migrator::migrations();
    match &m[0].up {
        SchemaChange::CreateEnumType { name, values } => {
            assert_eq!(name, "response_type");
            assert_eq!(values, &vec!["code".to_string(), "other".to_string()]);
        },
        other => panic!("unexpected {:?}", other),
    }
    match &m[0].down {
        SchemaChange::DropType { name } => assert_eq!(name, "response_type"),
        other => panic!("unexpected {:?}", other),
    }
    assert_eq!(ResponseType::Code.string_value(), "code");
    assert_eq!(ResponseType::Other.string_value(), "other");
}

#[test]
fn table_migrations_create_and_drop_their_tables() {
    let m = Migrator::migrations();
    let expected = [("clients", 6), ("requests", 7), ("codes", 3)];
    for (step, (table_name, n_columns)) in m[1..].iter().zip(expected) {
        match &step.up {
            SchemaChange::CreateTable { table } => {
                assert_eq!(table.name, table_name);
                assert!(table.if_not_exists);
                assert_eq!(table.columns.len(), n_columns);
                assert_eq!(table.columns[0].name, "id");
                assert!(table.columns[0].primary_key && table.columns[0].auto_increment);
                assert!(table.columns.iter().all(|c| c.not_null));
            },
            other => panic!("unexpected {:?}", other),
        }
        match &step.down {
            SchemaChange::DropTable { name } => assert_eq!(name, table_name),
            other => panic!("unexpected {:?}", other),
        }
    }
}

#[test]
fn foreign_keys_refer_to_earlier_tables() {
    let m = Migrator::migrations();
    let SchemaChange::CreateTable { table } = &m[2].up else { panic!("requests") };
    let fk = &table.foreign_keys[0];
    assert_eq!(fk.name, "fk-request-client_id");
    assert_eq!((fk.from_table.as_str(), fk.from_column.as_str()), ("requests", "client_id"));
    assert_eq!((fk.to_table.as_str(), fk.to_column.as_str()), ("clients", "id"));
    assert_eq!(fk.on_delete, ReferentialAction::Cascade);
    assert_eq!(fk.on_update, ReferentialAction::Cascade);
    let last = &table.columns[6];
    assert_eq!(last.name, "request_type");
    match &last.kind {
        ColumnKind::Enumeration { enum_name, variants } => {
            assert_eq!(enum_name, "response_type");
            assert_eq!(variants, &vec!["my_variant".to_string()]);
        },
        other => panic!("unexpected {:?}", other),
    }
    let SchemaChange::CreateTable { table } = &m[3].up else { panic!("codes") };
    let fk = &table.foreign_keys[0];
    assert_eq!(fk.name, "fk-code-request_id");
    assert_eq!((fk.from_table.as_str(), fk.from_column.as_str()), ("codes", "request_id"));
    assert_eq!((fk.to_table.as_str(), fk.to_column.as_str()), ("requests", "id"));
}

#[test]
fn identifiers_name_their_columns() {
    assert_eq!(Clients::Table.name(), "clients");
    assert_eq!(Clients::RedirectUri.name(), "redirect_uri");
    assert_eq!(Requests::Token.name(), "csrf_token");
    assert_eq!(Requests::ClientId.name(), "client_id");
    assert_eq!(Requests::Table.name(), "requests");
}
