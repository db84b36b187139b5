//! What a fixture's plans and workflows consist of, part by part.

use vstd::prelude::*;

use crate::append;
use crate::append::AppendMode;
use crate::append::AppendStepModel;
use crate::block::ColumnModel;
use crate::config::InnerConfigModel;
use crate::fixture;
use crate::fixture::FixtureModel;
use crate::plan;
use crate::plan::Engine;
use crate::plan::TableOption;
use crate::schema;
use crate::schema::ComputedExprModel;
use crate::schema::DataTypeModel;
use crate::schema::NumberDataType;
use crate::schema::TableFieldModel;
use crate::session;
use crate::session::GrantObject;
use crate::session::InitStepModel;
use crate::session::PasswordHashMethod;
use crate::session::PrivilegeSet;
use crate::session::SessionStepModel;
use crate::workflow;
use crate::workflow::Directive;

verus! {

/// The names of a fixture's database and table are its whole prefix, behind
/// `db_` and `tbl_`.
pub proof fn law_names_end_in_the_prefix(prefix: Seq<char>)
    ensures
        fixture::db_name(prefix).len() == prefix.len() + 3,
        fixture::db_name(prefix).take(3) == "db_"@,
        fixture::db_name(prefix).skip(3) == prefix,
        fixture::table_name(prefix).len() == prefix.len() + 4,
        fixture::table_name(prefix).take(4) == "tbl_"@,
        fixture::table_name(prefix).skip(4) == prefix,
{
    reveal_strlit("db_");
    reveal_strlit("tbl_");
    assert(fixture::db_name(prefix).take(3) =~= "db_"@);
    assert(fixture::db_name(prefix).skip(3) =~= prefix);
    assert(fixture::table_name(prefix).take(4) =~= "tbl_"@);
    assert(fixture::table_name(prefix).skip(4) =~= prefix);
}

/// A plan for a table takes over the schema, the comments and the cluster key
/// that it is given as they are, and the names and the tenant from the fixture.
/// It asks for a new, empty Fuse table, in a database with the id 1.
pub proof fn law_table_plan_keeps_what_it_is_given(
    fixture: FixtureModel,
    schema: Seq<TableFieldModel>,
    field_comments: Seq<Seq<char>>,
    cluster_key: Option<Seq<char>>,
)
    ensures
        ({
            let plan = plan::table_plan(fixture, schema, field_comments, cluster_key);
            &&& plan.schema == schema
            &&& plan.field_comments == field_comments
            &&& plan.cluster_key == cluster_key
            &&& plan.tenant == fixture.conf.tenant_id
            &&& plan.catalog == "default"@
            &&& plan.database == "db_"@ + fixture.prefix
            &&& plan.table == "tbl_"@ + fixture.prefix
            &&& plan.engine == Engine::Fuse
            &&& !plan.if_not_exists
            &&& !plan.read_only_attach
            &&& plan.part_prefix.len() == 0
            &&& plan.storage_params is None
            &&& plan.as_select is None
            &&& plan.options.len() == 1
            &&& plan.options[0] == (TableOption::DatabaseId, "1"@)
        }),
{
}

/// The plans for the default and the normal table keep the schema that they are
/// given, column for column, and comment on two columns; the default table is
/// clustered by `(id)`.
pub proof fn law_default_plans_keep_the_schema(fixture: FixtureModel, schema: Seq<TableFieldModel>)
    ensures
        plan::default_table_plan(fixture, schema).schema == schema,
        plan::normal_table_plan(fixture, schema).schema == schema,
        plan::default_table_plan(fixture, schema).field_comments == seq!["number"@, "tuple"@],
        plan::normal_table_plan(fixture, schema).field_comments == seq!["number"@, "tuple"@],
        plan::default_table_plan(fixture, schema).cluster_key == Some("(id)"@),
        plan::normal_table_plan(fixture, schema).cluster_key is None,
        plan::default_table_plan(fixture, schema).database == "db_"@ + fixture.prefix,
        plan::normal_table_plan(fixture, schema).database == "db_"@ + fixture.prefix,
        plan::default_table_plan(fixture, schema).table == "tbl_"@ + fixture.prefix,
        plan::normal_table_plan(fixture, schema).table == "tbl_"@ + fixture.prefix,
        plan::default_table_plan(fixture, schema).tenant == fixture.conf.tenant_id,
        plan::normal_table_plan(fixture, schema).tenant == fixture.conf.tenant_id,
{
}

/// A plan that is given a table form of a data schema creates a table of that
/// form, whichever of the four tables it is for.
pub proof fn law_planned_tables_keep_their_form(
    fixture: FixtureModel,
    fields: Seq<TableFieldModel>,
    data: Seq<schema::DataFieldModel>,
    field_comments: Seq<Seq<char>>,
    cluster_key: Option<Seq<char>>,
)
    requires
        schema::is_table_form(fields, data),
    ensures
        schema::is_table_form(plan::default_table_plan(fixture, fields).schema, data),
        schema::is_table_form(plan::normal_table_plan(fixture, fields).schema, data),
        schema::is_table_form(
            plan::table_plan(fixture, fields, field_comments, cluster_key).schema,
            data,
        ),
{
}

/// The plan for the database names the tenant that it is given and the
/// fixture's own database, and leaves the choice of its engine open.
pub proof fn law_database_plan_parts(fixture: FixtureModel, tenant: Seq<char>)
    ensures
        ({
            let plan = plan::database_plan(fixture, tenant);
            &&& plan.tenant == tenant
            &&& plan.database == "db_"@ + fixture.prefix
            &&& plan.catalog == "default"@
            &&& plan.engine.len() == 0
            &&& !plan.if_not_exists
        }),
{
}

/// The table is looked up for the configured tenant, in the default catalog,
/// under names that end in the whole prefix.
pub proof fn law_table_path_parts(fixture: FixtureModel)
    ensures
        plan::table_path(fixture).catalog == "default"@,
        plan::table_path(fixture).tenant == fixture.conf.tenant_id,
        plan::table_path(fixture).database == "db_"@ + fixture.prefix,
        plan::table_path(fixture).table == "tbl_"@ + fixture.prefix,
{
}

/// The columns of the default table, one by one.
pub proof fn law_default_fields()
    ensures
        ({
            let fields = plan::default_fields();
            let int32 = DataTypeModel::Number(NumberDataType::Int32);
            &&& fields.len() == 2
            &&& fields[0].name == "id"@
            &&& fields[0].data_type == int32
            &&& fields[0].default_expr == Some("0"@)
            &&& fields[0].computed_expr is None
            &&& fields[1].name == "t"@
            &&& fields[1].data_type is Tuple
            &&& fields[1].data_type->Tuple_0.len() == 2
            &&& fields[1].data_type->Tuple_0[0] == DataTypeModel::Nullable(Box::new(int32))
            &&& fields[1].data_type->Tuple_0[1] == DataTypeModel::Nullable(Box::new(int32))
            &&& fields[1].default_expr == Some("(0,0)"@)
            &&& fields[1].computed_expr is None
        }),
{
}

/// The columns of the variant table, one by one.
pub proof fn law_variant_fields()
    ensures
        ({
            let fields = plan::variant_fields();
            &&& fields.len() == 2
            &&& fields[0].name == "id"@
            &&& fields[0].data_type == DataTypeModel::Number(NumberDataType::Int32)
            &&& fields[0].default_expr is None
            &&& fields[0].computed_expr is None
            &&& fields[1].name == "v"@
            &&& fields[1].data_type == DataTypeModel::Variant
            &&& fields[1].default_expr is None
            &&& fields[1].computed_expr is None
        }),
{
}

/// The columns of the table with computed columns, one by one. None has a
/// default.
pub proof fn law_computed_fields()
    ensures
        ({
            let fields = plan::computed_fields();
            let int64 = DataTypeModel::Number(NumberDataType::Int64);
            &&& fields.len() == 7
            &&& forall|i: int| 0 <= i < 7 ==> (#[trigger] fields[i]).default_expr is None
            &&& fields[0].name == "id"@
            &&& fields[0].data_type == DataTypeModel::Number(NumberDataType::Int32)
            &&& fields[0].computed_expr is None
            &&& fields[1].name == "a1"@
            &&& fields[1].data_type == DataTypeModel::String
            &&& fields[1].computed_expr == Some(ComputedExprModel::Virtual("reverse(c)"@))
            &&& fields[2].name == "a2"@
            &&& fields[2].data_type == DataTypeModel::String
            &&& fields[2].computed_expr == Some(ComputedExprModel::Stored("upper(c)"@))
            &&& fields[3].name == "b1"@
            &&& fields[3].data_type == int64
            &&& fields[3].computed_expr == Some(ComputedExprModel::Virtual("(d + 2)"@))
            &&& fields[4].name == "b2"@
            &&& fields[4].data_type == int64
            &&& fields[4].computed_expr == Some(ComputedExprModel::Stored("((d + 1) * 3)"@))
            &&& fields[5].name == "c"@
            &&& fields[5].data_type == DataTypeModel::String
            &&& fields[5].computed_expr is None
            &&& fields[6].name == "d"@
            &&& fields[6].data_type == int64
            &&& fields[6].computed_expr is None
        }),
{
}

/// A field made from a name and a type has just these, in either form of schema.
pub proof fn law_plain_fields(
    name: Seq<char>,
    data_type: DataTypeModel,
    table_type: schema::TableDataTypeModel,
)
    ensures
        schema::plain_field(name, data_type).name == name,
        schema::plain_field(name, data_type).data_type == data_type,
        schema::plain_field(name, data_type).default_expr is None,
        schema::plain_field(name, data_type).computed_expr is None,
        schema::plain_table_field(name, table_type).name == name,
        schema::plain_table_field(name, table_type).data_type == table_type,
        schema::plain_table_field(name, table_type).default_expr is None,
        schema::plain_table_field(name, table_type).computed_expr is None,
{
}

/// Blocks are fed in once, by one source, before the table is told to take them:
/// all the blocks that were given, in the same order, and nothing else. Before
/// that a context is opened, and after it the missing columns are filled in,
/// against the columns of the table that are not computed.
pub proof fn law_all_blocks_are_fed_in(
    table_fields: Seq<TableFieldModel>,
    blocks: Seq<Seq<ColumnModel>>,
    overwrite: bool,
    commit: bool,
)
    ensures
        ({
            let steps = append::append_steps(table_fields, blocks, overwrite, commit);
            &&& steps.len() == 6
            &&& steps[0] is NewQueryContext
            &&& steps[1] is AddBlocksSource
            &&& steps[1]->sources == 1
            &&& steps[1]->blocks == blocks
            &&& steps[1]->blocks.len() == blocks.len()
            &&& forall|i: int|
                0 <= i < steps.len() && i != 1 ==> !(#[trigger] steps[i] is AddBlocksSource)
            &&& steps[2] is FillMissingColumns
            &&& steps[2]->source_schema == schema::without_computed(table_fields)
            &&& forall|i: int|
                0 <= i < steps.len() && i != 2 ==> !(#[trigger] steps[i] is FillMissingColumns)
            &&& steps[3] == (AppendStepModel::AppendData { mode: AppendMode::Normal })
            &&& commit ==> steps[4] == (AppendStepModel::CommitInsertion {
                copied_files: None,
                stream_updates: Seq::empty(),
                overwrite,
                prev_snapshot: None,
            })
            &&& !commit ==> steps[4] is AddEmptySink
            &&& steps[5] is ExecutePipeline
        }),
{
}

/// What is appended does not depend on how it is committed, and more blocks are
/// fed in as the earlier ones and the later ones together.
pub proof fn law_blocks_are_fed_in_whatever_follows(
    table_fields: Seq<TableFieldModel>,
    first: Seq<Seq<ColumnModel>>,
    second: Seq<Seq<ColumnModel>>,
    overwrite: bool,
    commit: bool,
    other_overwrite: bool,
    other_commit: bool,
)
    ensures
        append::append_steps(table_fields, first, overwrite, commit).take(4)
            == append::append_steps(table_fields, first, other_overwrite, other_commit).take(4),
        append::append_steps(table_fields, first + second, overwrite, commit)[1]->blocks
            == append::append_steps(table_fields, first, overwrite, commit)[1]->blocks
            + append::append_steps(table_fields, second, overwrite, commit)[1]->blocks,
{
    assert(append::append_steps(table_fields, first, overwrite, commit).take(4)
        =~= append::append_steps(table_fields, first, other_overwrite, other_commit).take(4));
}

/// A session acts for `root`, from anywhere, with the password `pass`, with the
/// privileges that are available globally and on stages, without a role, on at
/// most eight threads.
pub proof fn law_session_parts()
    ensures
        ({
            let steps = session::session_steps();
            &&& steps.len() == 3
            &&& steps[0] is CreateSession
            &&& steps[1] is SetAuthedUser
            &&& steps[1]->user == session::root_user()
            &&& steps[1]->role is None
            &&& steps[2] == (SessionStepModel::SetMaxThreads { max_threads: 8 })
        }),
        ({
            let user = session::root_user();
            &&& user.name == "root"@
            &&& user.hostname == "%"@
            &&& user.hash_method == PasswordHashMethod::Sha256
            &&& user.hash_value == seq![112u8, 97u8, 115u8, 115u8]
            &&& user.grants.len() == 2
            &&& user.grants[0] == (GrantObject::Global, PrivilegeSet::AvailableOnGlobal)
            &&& user.grants[1] == (GrantObject::Global, PrivilegeSet::AvailableOnStage)
        }),
{
}

/// The global state comes up with the configuration that is given, for its
/// tenant, after the panic hook and the environment have been set. Instances are
/// kept apart exactly where the name of a thread is given, by that name, and
/// nothing else changes with it.
pub proof fn law_init_parts(config: InnerConfigModel, thread_name: Seq<char>)
    ensures
        ({
            let steps = session::init_steps(config, None);
            &&& steps.len() == 5
            &&& steps[0] is SetPanicHook
            &&& steps[1] == (InitStepModel::SetEnv { variable: "UNIT_TEST"@, value: "TRUE"@ })
            &&& steps[2] == (InitStepModel::InitGlobalServices { config })
            &&& steps[3] == (InitStepModel::InitLicenseManager { tenant: config.tenant_id })
            &&& steps[4] == (InitStepModel::RegisterCluster { config })
        }),
        session::init_steps(config, Some(thread_name)) == session::init_steps(config, None).insert(
            2,
            InitStepModel::InitTestingInstance { thread_name },
        ),
{
    assert(session::init_steps(config, Some(thread_name)) =~= session::init_steps(
        config,
        None,
    ).insert(2, InitStepModel::InitTestingInstance { thread_name }));
}

/// A success takes the first action off those that remain and calls for it; where
/// none remains, the workflow is finished. A failure leaves nothing to do, and
/// its cause comes out.
pub proof fn law_reports_take_actions_off<A, E>(action: A, rest: Seq<A>, cause: E)
    ensures
        workflow::after_report(seq![action] + rest, Ok::<(), E>(())) == (
            rest,
            Directive::<A, E>::Perform(action),
        ),
        workflow::after_report(Seq::<A>::empty(), Ok::<(), E>(())) == (
            Seq::<A>::empty(),
            Directive::<A, E>::Finished,
        ),
        workflow::after_report(rest, Err::<(), E>(cause)) == (
            Seq::<A>::empty(),
            Directive::<A, E>::Failed(cause),
        ),
{
    assert((seq![action] + rest).skip(1) =~= rest);
}

} // verus!
