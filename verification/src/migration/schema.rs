use vstd::prelude::*;

verus! {

/// What to do with a referencing row when the referenced row changes.
#[derive(Debug, Clone, Copy, PartialEq, Eq, Structural)]
pub enum ReferentialAction {
    Restrict,
    Cascade,
    SetNull,
    NoAction,
    SetDefault,
}

/// The type of a column.
#[derive(Debug)]
pub enum ColumnKind {
    Integer,
    Text,
    /// A value of the enumerated database type `enum_name`.
    Enumeration { enum_name: String, variants: Vec<String> },
}

pub enum ColumnKindView {
    Integer,
    Text,
    Enumeration { enum_name: Seq<char>, variants: Seq<Seq<char>> },
}

impl View for ColumnKind {
    type V = ColumnKindView;

    open spec fn view(&self) -> ColumnKindView {
        match self {
            ColumnKind::Integer => ColumnKindView::Integer,
            ColumnKind::Text => ColumnKindView::Text,
            ColumnKind::Enumeration { enum_name, variants } => ColumnKindView::Enumeration {
                enum_name: enum_name@,
                variants: variants@.map_values(|v: String| v@),
            },
        }
    }
}

/// A column of a table.
#[derive(Debug)]
pub struct ColumnSpec {
    pub name: String,
    pub kind: ColumnKind,
    pub not_null: bool,
    pub auto_increment: bool,
    pub primary_key: bool,
}

pub struct ColumnSpecView {
    pub name: Seq<char>,
    pub kind: ColumnKindView,
    pub not_null: bool,
    pub auto_increment: bool,
    pub primary_key: bool,
}

impl View for ColumnSpec {
    type V = ColumnSpecView;

    open spec fn view(&self) -> ColumnSpecView {
        ColumnSpecView {
            name: self.name@,
            kind: self.kind@,
            not_null: self.not_null,
            auto_increment: self.auto_increment,
            primary_key: self.primary_key,
        }
    }
}

/// A foreign key: `from_table.from_column` refers to `to_table.to_column`.
#[derive(Debug)]
pub struct ForeignKeySpec {
    pub name: String,
    pub from_table: String,
    pub from_column: String,
    pub to_table: String,
    pub to_column: String,
    pub on_delete: ReferentialAction,
    pub on_update: ReferentialAction,
}

pub struct ForeignKeySpecView {
    pub name: Seq<char>,
    pub from_table: Seq<char>,
    pub from_column: Seq<char>,
    pub to_table: Seq<char>,
    pub to_column: Seq<char>,
    pub on_delete: ReferentialAction,
    pub on_update: ReferentialAction,
}

impl View for ForeignKeySpec {
    type V = ForeignKeySpecView;

    open spec fn view(&self) -> ForeignKeySpecView {
        ForeignKeySpecView {
            name: self.name@,
            from_table: self.from_table@,
            from_column: self.from_column@,
            to_table: self.to_table@,
            to_column: self.to_column@,
            on_delete: self.on_delete,
            on_update: self.on_update,
        }
    }
}

/// A table to create.
#[derive(Debug)]
pub struct TableSpec {
    pub name: String,
    pub if_not_exists: bool,
    pub columns: Vec<ColumnSpec>,
    pub foreign_keys: Vec<ForeignKeySpec>,
}

pub struct TableSpecView {
    pub name: Seq<char>,
    pub if_not_exists: bool,
    pub columns: Seq<ColumnSpecView>,
    pub foreign_keys: Seq<ForeignKeySpecView>,
}

impl View for TableSpec {
    type V = TableSpecView;

    open spec fn view(&self) -> TableSpecView {
        TableSpecView {
            name: self.name@,
            if_not_exists: self.if_not_exists,
            columns: self.columns@.map_values(|c: ColumnSpec| c@),
            foreign_keys: self.foreign_keys@.map_values(|k: ForeignKeySpec| k@),
        }
    }
}

/// One change to the database schema.
#[derive(Debug)]
pub enum SchemaChange {
    /// Create the enumerated type `name` with the given values.
    CreateEnumType { name: String, values: Vec<String> },
    /// Drop the type `name`.
    DropType { name: String },
    CreateTable { table: TableSpec },
    DropTable { name: String },
}

pub enum SchemaChangeView {
    CreateEnumType { name: Seq<char>, values: Seq<Seq<char>> },
    DropType { name: Seq<char> },
    CreateTable { table: TableSpecView },
    DropTable { name: Seq<char> },
}

impl View for SchemaChange {
    type V = SchemaChangeView;

    open spec fn view(&self) -> SchemaChangeView {
        match self {
            SchemaChange::CreateEnumType { name, values } => SchemaChangeView::CreateEnumType {
                name: name@,
                values: values@.map_values(|v: String| v@),
            },
            SchemaChange::DropType { name } => SchemaChangeView::DropType { name: name@ },
            SchemaChange::CreateTable { table } => SchemaChangeView::CreateTable { table: table@ },
            SchemaChange::DropTable { name } => SchemaChangeView::DropTable { name: name@ },
        }
    }
}

/// A column as the migrations write it: its name, its type and whether it
/// is the integer key of its table (not null, auto-incremented, primary).
pub open spec fn column_view(name: Seq<char>, kind: ColumnKindView, key: bool) -> ColumnSpecView {
    ColumnSpecView { name, kind, not_null: true, auto_increment: key, primary_key: key }
}

/// A foreign key as the migrations write it, cascading on delete and update.
pub open spec fn foreign_key_view(
    name: Seq<char>,
    from_table: Seq<char>,
    from_column: Seq<char>,
    to_table: Seq<char>,
    to_column: Seq<char>,
) -> ForeignKeySpecView {
    ForeignKeySpecView {
        name,
        from_table,
        from_column,
        to_table,
        to_column,
        on_delete: ReferentialAction::Cascade,
        on_update: ReferentialAction::Cascade,
    }
}

/// A `String` with the characters of `s`.
pub fn text(s: &str) -> (r: String)
    ensures
        r@ == s@,
{
    s.to_owned()
}

/// The integer key column `name`.
pub fn key_column(name: &str) -> (c: ColumnSpec)
    ensures
        c@ == column_view(name@, ColumnKindView::Integer, true),
{
    ColumnSpec {
        name: text(name),
        kind: ColumnKind::Integer,
        not_null: true,
        auto_increment: true,
        primary_key: true,
    }
}

/// The not-null column `name` of type `kind`.
pub fn column(name: &str, kind: ColumnKind) -> (c: ColumnSpec)
    ensures
        c@ == column_view(name@, kind@, false),
{
    ColumnSpec { name: text(name), kind, not_null: true, auto_increment: false, primary_key: false }
}

/// The foreign key `name` from `from_table.from_column` to
/// `to_table.to_column`, cascading on delete and update.
pub fn foreign_key(
    name: &str,
    from_table: &str,
    from_column: &str,
    to_table: &str,
    to_column: &str,
) -> (k: ForeignKeySpec)
    ensures
        k@ == foreign_key_view(name@, from_table@, from_column@, to_table@, to_column@),
{
    ForeignKeySpec {
        name: text(name),
        from_table: text(from_table),
        from_column: text(from_column),
        to_table: text(to_table),
        to_column: text(to_column),
        on_delete: ReferentialAction::Cascade,
        on_update: ReferentialAction::Cascade,
    }
}

} // verus!
