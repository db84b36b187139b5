//! What a fixture asks an engine to create.

use vstd::prelude::*;

use crate::config::StorageParams;
use crate::config::StorageParamsModel;
use crate::fixture;
use crate::fixture::FixtureModel;
use crate::fixture::TestFixture;
use crate::schema;
use crate::schema::ComputedExpr;
use crate::schema::ComputedExprModel;
use crate::schema::DataField;
use crate::schema::DataFieldModel;
use crate::schema::DataSchema;
use crate::schema::DataType;
use crate::schema::DataTypeModel;
use crate::schema::NumberDataType;
use crate::schema::TableFieldModel;
use crate::schema::TableSchema;

verus! {

/// What keeps the data of a table.
#[derive(Clone, Copy, Debug, PartialEq, Eq, Structural)]
pub enum Engine {
    Fuse,
}

/// The options of a table that the engine knows by name.
#[derive(Clone, Copy, Debug, PartialEq, Eq, Structural)]
pub enum TableOption {
    /// The id of the database that the table is in. The Fuse engine requires it.
    DatabaseId,
}

/// An order to create a table.
#[derive(Debug, PartialEq, Eq)]
pub struct CreateTablePlan {
    pub if_not_exists: bool,
    pub tenant: String,
    pub catalog: String,
    pub database: String,
    pub table: String,
    pub schema: TableSchema,
    pub engine: Engine,
    pub storage_params: Option<StorageParams>,
    pub read_only_attach: bool,
    pub part_prefix: String,
    pub options: Vec<(TableOption, String)>,
    pub field_comments: Vec<String>,
    /// The query whose rows fill the table.
    pub as_select: Option<String>,
    pub cluster_key: Option<String>,
}

/// What a `CreateTablePlan` stands for.
#[verifier::ext_equal]
pub struct CreateTablePlanModel {
    pub if_not_exists: bool,
    pub tenant: Seq<char>,
    pub catalog: Seq<char>,
    pub database: Seq<char>,
    pub table: Seq<char>,
    pub schema: Seq<TableFieldModel>,
    pub engine: Engine,
    pub storage_params: Option<StorageParamsModel>,
    pub read_only_attach: bool,
    pub part_prefix: Seq<char>,
    pub options: Seq<(TableOption, Seq<char>)>,
    pub field_comments: Seq<Seq<char>>,
    pub as_select: Option<Seq<char>>,
    pub cluster_key: Option<Seq<char>>,
}

impl View for CreateTablePlan {
    type V = CreateTablePlanModel;

    open spec fn view(&self) -> CreateTablePlanModel {
        CreateTablePlanModel {
            if_not_exists: self.if_not_exists,
            tenant: self.tenant@,
            catalog: self.catalog@,
            database: self.database@,
            table: self.table@,
            schema: self.schema@,
            engine: self.engine,
            storage_params: match self.storage_params {
                Some(params) => Some(params@),
                None => None,
            },
            read_only_attach: self.read_only_attach,
            part_prefix: self.part_prefix@,
            options: Seq::new(
                self.options@.len(),
                |i: int| (self.options@[i].0, self.options@[i].1@),
            ),
            field_comments: schema::texts(self.field_comments@),
            as_select: schema::optional_text(self.as_select),
            cluster_key: schema::optional_text(self.cluster_key),
        }
    }
}

/// An order to create the fixture's table: a new, empty Fuse table in the
/// fixture's database, which has id 1.
pub open spec fn table_plan(
    fixture: FixtureModel,
    schema: Seq<TableFieldModel>,
    field_comments: Seq<Seq<char>>,
    cluster_key: Option<Seq<char>>,
) -> CreateTablePlanModel {
    CreateTablePlanModel {
        if_not_exists: false,
        tenant: fixture.conf.tenant_id,
        catalog: "default"@,
        database: fixture::db_name(fixture.prefix),
        table: fixture::table_name(fixture.prefix),
        schema,
        engine: Engine::Fuse,
        storage_params: None,
        read_only_attach: false,
        part_prefix: Seq::empty(),
        options: seq![(TableOption::DatabaseId, "1"@)],
        field_comments,
        as_select: None,
        cluster_key,
    }
}

/// An order to create the default table: with comments, and clustered by id.
pub open spec fn default_table_plan(
    fixture: FixtureModel,
    schema: Seq<TableFieldModel>,
) -> CreateTablePlanModel {
    table_plan(fixture, schema, seq!["number"@, "tuple"@], Some("(id)"@))
}

/// An order to create the default table with comments, but no cluster key.
pub open spec fn normal_table_plan(
    fixture: FixtureModel,
    schema: Seq<TableFieldModel>,
) -> CreateTablePlanModel {
    table_plan(fixture, schema, seq!["number"@, "tuple"@], None)
}

/// What a table is looked up by.
#[derive(Debug, PartialEq, Eq)]
pub struct TablePath {
    pub catalog: String,
    pub tenant: String,
    pub database: String,
    pub table: String,
}

/// What a `TablePath` stands for.
#[verifier::ext_equal]
pub struct TablePathModel {
    pub catalog: Seq<char>,
    pub tenant: Seq<char>,
    pub database: Seq<char>,
    pub table: Seq<char>,
}

impl View for TablePath {
    type V = TablePathModel;

    open spec fn view(&self) -> TablePathModel {
        TablePathModel {
            catalog: self.catalog@,
            tenant: self.tenant@,
            database: self.database@,
            table: self.table@,
        }
    }
}

/// What the fixture's table is looked up by, in the default catalog.
pub open spec fn table_path(fixture: FixtureModel) -> TablePathModel {
    TablePathModel {
        catalog: "default"@,
        tenant: fixture.conf.tenant_id,
        database: fixture::db_name(fixture.prefix),
        table: fixture::table_name(fixture.prefix),
    }
}

/// An order to create a database.
#[derive(Debug, PartialEq, Eq)]
pub struct CreateDatabasePlan {
    pub if_not_exists: bool,
    pub tenant: String,
    pub catalog: String,
    pub database: String,
    /// What keeps the database; empty for the engine's own choice.
    pub engine: String,
}

/// What a `CreateDatabasePlan` stands for.
#[verifier::ext_equal]
pub struct CreateDatabasePlanModel {
    pub if_not_exists: bool,
    pub tenant: Seq<char>,
    pub catalog: Seq<char>,
    pub database: Seq<char>,
    pub engine: Seq<char>,
}

impl View for CreateDatabasePlan {
    type V = CreateDatabasePlanModel;

    open spec fn view(&self) -> CreateDatabasePlanModel {
        CreateDatabasePlanModel {
            if_not_exists: self.if_not_exists,
            tenant: self.tenant@,
            catalog: self.catalog@,
            database: self.database@,
            engine: self.engine@,
        }
    }
}

/// An order to create the fixture's database for a tenant.
pub open spec fn database_plan(
    fixture: FixtureModel,
    tenant: Seq<char>,
) -> CreateDatabasePlanModel {
    CreateDatabasePlanModel {
        if_not_exists: false,
        tenant,
        catalog: "default"@,
        database: fixture::db_name(fixture.prefix),
        engine: Seq::empty(),
    }
}

/// The columns of the default table: a number, and a tuple of two numbers that
/// may be null. Both have defaults.
pub open spec fn default_fields() -> Seq<DataFieldModel> {
    let int32 = DataTypeModel::Number(NumberDataType::Int32);
    let nullable = DataTypeModel::Nullable(Box::new(int32));
    seq![
        DataFieldModel {
            default_expr: Some("0"@),
            ..schema::plain_field("id"@, int32)
        },
        DataFieldModel {
            default_expr: Some("(0,0)"@),
            ..schema::plain_field("t"@, DataTypeModel::Tuple(seq![nullable, nullable]))
        },
    ]
}

/// The columns of the variant table: a number and a document.
pub open spec fn variant_fields() -> Seq<DataFieldModel> {
    seq![
        schema::plain_field("id"@, DataTypeModel::Number(NumberDataType::Int32)),
        schema::plain_field("v"@, DataTypeModel::Variant),
    ]
}

/// A column computed on every read.
pub open spec fn virtual_field(
    name: Seq<char>,
    data_type: DataTypeModel,
    expr: Seq<char>,
) -> DataFieldModel {
    DataFieldModel {
        computed_expr: Some(ComputedExprModel::Virtual(expr)),
        ..schema::plain_field(name, data_type)
    }
}

/// A column computed on insertion.
pub open spec fn stored_field(
    name: Seq<char>,
    data_type: DataTypeModel,
    expr: Seq<char>,
) -> DataFieldModel {
    DataFieldModel {
        computed_expr: Some(ComputedExprModel::Stored(expr)),
        ..schema::plain_field(name, data_type)
    }
}

/// The columns of the table with computed columns: `a1` and `a2` are computed
/// from `c`, `b1` and `b2` from `d`.
pub open spec fn computed_fields() -> Seq<DataFieldModel> {
    let int32 = DataTypeModel::Number(NumberDataType::Int32);
    let int64 = DataTypeModel::Number(NumberDataType::Int64);
    let string = DataTypeModel::String;
    seq![
        schema::plain_field("id"@, int32),
        virtual_field("a1"@, string, "reverse(c)"@),
        stored_field("a2"@, string, "upper(c)"@),
        virtual_field("b1"@, int64, "(d + 2)"@),
        stored_field("b2"@, int64, "((d + 1) * 3)"@),
        schema::plain_field("c"@, string),
        schema::plain_field("d"@, int64),
    ]
}

/// A column computed on every read.
fn new_virtual_field(name: &str, data_type: DataType, expr: &str) -> (field: DataField)
    ensures
        field@ == virtual_field(name@, data_type.view(), expr@),
{
    DataField::new(name, data_type).with_computed_expr(
        Some(ComputedExpr::Virtual(expr.to_owned())),
    )
}

/// A column computed on insertion.
fn new_stored_field(name: &str, data_type: DataType, expr: &str) -> (field: DataField)
    ensures
        field@ == stored_field(name@, data_type.view(), expr@),
{
    DataField::new(name, data_type).with_computed_expr(
        Some(ComputedExpr::Stored(expr.to_owned())),
    )
}

impl TestFixture {
    /// The schema of the default table.
    pub fn default_schema() -> (schema: DataSchema)
        ensures
            schema@ == default_fields(),
    {
        let tuple_inner_data_types = vec![
            DataType::Nullable(Box::new(DataType::Number(NumberDataType::Int32))),
            DataType::Nullable(Box::new(DataType::Number(NumberDataType::Int32))),
        ];
        let tuple_data_type = DataType::Tuple(tuple_inner_data_types);
        proof {
            reveal_with_fuel(DataType::view, 3);
            assert(tuple_data_type.view()->Tuple_0 =~= default_fields()[1].data_type->Tuple_0);
        }
        let field_id = DataField::new("id", DataType::Number(NumberDataType::Int32));
        let field_t = DataField::new("t", tuple_data_type);
        let schema = DataSchema {
            fields: vec![
                field_id.with_default_expr(Some("0".to_owned())),
                field_t.with_default_expr(Some("(0,0)".to_owned())),
            ],
        };
        assert(schema@ =~= default_fields());
        schema
    }

    /// The schema of the variant table.
    pub fn variant_schema() -> (schema: DataSchema)
        ensures
            schema@ == variant_fields(),
    {
        let schema = DataSchema {
            fields: vec![
                DataField::new("id", DataType::Number(NumberDataType::Int32)),
                DataField::new("v", DataType::Variant),
            ],
        };
        assert(schema@ =~= variant_fields());
        schema
    }

    /// The schema of the table with computed columns.
    pub fn computed_schema() -> (schema: DataSchema)
        ensures
            schema@ == computed_fields(),
    {
        let schema = DataSchema {
            fields: vec![
                DataField::new("id", DataType::Number(NumberDataType::Int32)),
                new_virtual_field("a1", DataType::String, "reverse(c)"),
                new_stored_field("a2", DataType::String, "upper(c)"),
                new_virtual_field("b1", DataType::Number(NumberDataType::Int64), "(d + 2)"),
                new_stored_field("b2", DataType::Number(NumberDataType::Int64), "((d + 1) * 3)"),
                DataField::new("c", DataType::String),
                DataField::new("d", DataType::Number(NumberDataType::Int64)),
            ],
        };
        assert(schema@ =~= computed_fields());
        schema
    }

    /// An order to create the fixture's table.
    fn create_table_plan(
        &self,
        schema: TableSchema,
        field_comments: Vec<String>,
        cluster_key: Option<String>,
    ) -> (plan: CreateTablePlan)
        ensures
            plan@ == table_plan(
                self@,
                schema@,
                schema::texts(field_comments@),
                schema::optional_text(cluster_key),
            ),
            plan.schema == schema,
            plan.field_comments == field_comments,
            plan.cluster_key == cluster_key,
    {
        let plan = CreateTablePlan {
            if_not_exists: false,
            tenant: self.default_tenant(),
            catalog: self.default_catalog_name(),
            database: self.default_db_name(),
            table: self.default_table_name(),
            schema,
            engine: Engine::Fuse,
            storage_params: None,
            read_only_attach: false,
            part_prefix: String::new(),
            options: vec![(TableOption::DatabaseId, "1".to_owned())],
            field_comments,
            as_select: None,
            cluster_key,
        };
        assert(plan@.options =~= seq![(TableOption::DatabaseId, "1"@)]);
        plan
    }

    /// The comments on the two columns of the default table.
    fn default_field_comments() -> (comments: Vec<String>)
        ensures
            schema::texts(comments@) == seq!["number"@, "tuple"@],
    {
        let comments = vec!["number".to_owned(), "tuple".to_owned()];
        assert(schema::texts(comments@) =~= seq!["number"@, "tuple"@]);
        comments
    }

    /// An order to create the default table, clustered by id. `schema` is the
    /// table form of `default_schema`.
    pub fn default_create_table_plan(&self, schema: TableSchema) -> (plan: CreateTablePlan)
        ensures
            plan@ == default_table_plan(self@, schema@),
            plan.schema == schema,
    {
        self.create_table_plan(schema, Self::default_field_comments(), Some("(id)".to_owned()))
    }

    /// An order to create the default table without a cluster key. `schema` is
    /// the table form of `default_schema`.
    pub fn normal_create_table_plan(&self, schema: TableSchema) -> (plan: CreateTablePlan)
        ensures
            plan@ == normal_table_plan(self@, schema@),
            plan.schema == schema,
    {
        self.create_table_plan(schema, Self::default_field_comments(), None)
    }

    /// An order to create the variant table. `schema` is the table form of
    /// `variant_schema`.
    pub fn variant_create_table_plan(&self, schema: TableSchema) -> (plan: CreateTablePlan)
        ensures
            plan@ == table_plan(self@, schema@, Seq::empty(), None),
            plan.schema == schema,
    {
        let comments: Vec<String> = Vec::new();
        assert(schema::texts(comments@) =~= Seq::empty());
        self.create_table_plan(schema, comments, None)
    }

    /// An order to create the table with computed columns. `schema` is the
    /// table form of `computed_schema`.
    pub fn computed_create_table_plan(&self, schema: TableSchema) -> (plan: CreateTablePlan)
        ensures
            plan@ == table_plan(self@, schema@, Seq::empty(), None),
            plan.schema == schema,
    {
        let comments: Vec<String> = Vec::new();
        assert(schema::texts(comments@) =~= Seq::empty());
        self.create_table_plan(schema, comments, None)
    }

    /// An order to create the fixture's database for a tenant.
    pub fn create_database_plan(&self, tenant: String) -> (plan: CreateDatabasePlan)
        ensures
            plan@ == database_plan(self@, tenant@),
    {
        CreateDatabasePlan {
            if_not_exists: false,
            tenant,
            catalog: self.default_catalog_name(),
            database: self.default_db_name(),
            engine: String::new(),
        }
    }

    /// What the fixture's table is looked up by, in the default catalog.
    pub fn default_table_path(&self) -> (path: TablePath)
        ensures
            path@ == table_path(self@),
    {
        TablePath {
            catalog: self.default_catalog_name(),
            tenant: self.default_tenant(),
            database: self.default_db_name(),
            table: self.default_table_name(),
        }
    }
}

} // verus!
