//! The models of the library's types leave nothing out.

use vstd::prelude::*;

use crate::append::AppendStep;
use crate::block;
use crate::block::Column;
use crate::block::ColumnModel;
use crate::block::DataBlock;
use crate::config::InnerConfig;
use crate::config::StorageParams;
use crate::plan::CreateDatabasePlan;
use crate::plan::CreateTablePlan;
use crate::plan::TablePath;
use crate::schema;
use crate::schema::ComputedExpr;
use crate::schema::ComputedExprModel;
use crate::schema::DataField;
use crate::schema::DataSchema;
use crate::schema::DataType;
use crate::schema::DataTypeModel;
use crate::schema::TableDataType;
use crate::schema::TableDataTypeModel;
use crate::schema::TableField;
use crate::schema::TableSchema;
use crate::session::AuthInfo;
use crate::session::InitStep;
use crate::session::SessionStep;
use crate::session::UserInfo;
use crate::workflow;

verus! {

/// Lists of texts, of byte strings, of blocks and of actions are modelled
/// element by element.
pub proof fn law_lists_are_modelled_by_element<A: View>(
    strings: Seq<String>,
    rows: Seq<Vec<u8>>,
    blocks: Seq<DataBlock>,
    actions: Seq<A>,
)
    ensures
        schema::texts(strings).len() == strings.len(),
        forall|i: int|
            0 <= i < strings.len() ==> #[trigger] schema::texts(strings)[i] == strings[i]@,
        block::byte_rows(rows).len() == rows.len(),
        forall|i: int| 0 <= i < rows.len() ==> #[trigger] block::byte_rows(rows)[i] == rows[i]@,
        block::block_columns(blocks).len() == blocks.len(),
        forall|i: int|
            0 <= i < blocks.len() ==> #[trigger] block::block_columns(blocks)[i] == blocks[i]@,
        workflow::views(actions).len() == actions.len(),
        forall|i: int|
            0 <= i < actions.len() ==> #[trigger] workflow::views(actions)[i] == actions[i]@,
{
}

/// Blocks match a list of models only where each block matches the model at its
/// place, and there are no more of one than of the other.
pub proof fn law_blocks_match_their_models(blocks: Seq<DataBlock>, models: Seq<Seq<ColumnModel>>)
    ensures
        block::blocks_are(blocks, models) <==> blocks.len() == models.len() && forall|i: int|
            0 <= i < blocks.len() ==> (#[trigger] blocks[i])@ == models[i],
        block::blocks_are(blocks, models) <==> block::block_columns(blocks) == models,
{
    if block::blocks_are(blocks, models) {
        assert(block::block_columns(blocks) =~= models);
    }
    if block::block_columns(blocks) == models {
        assert forall|i: int| 0 <= i < blocks.len() implies (#[trigger] blocks[i])@
            == models[i] by {
            assert(block::block_columns(blocks)[i] == blocks[i]@);
        }
    }
}

/// What may be missing is modelled as missing exactly where it is.
pub proof fn law_optional_values(text: String, expr: ComputedExpr)
    ensures
        schema::optional_text(Some(text)) == Some(text@),
        schema::optional_text(None) is None,
        schema::optional_computed(Some(expr)) == Some(expr@),
        schema::optional_computed(None) is None,
{
}

/// A computed expression is modelled by its kind and its text.
pub proof fn law_computed_expr_view(text: String)
    ensures
        ComputedExpr::Virtual(text)@ == ComputedExprModel::Virtual(text@),
        ComputedExpr::Stored(text)@ == ComputedExprModel::Stored(text@),
{
}

/// A data type is modelled by its kind and, part by part, by what it is made of.
pub proof fn law_data_type_view(
    number: schema::NumberDataType,
    inner: DataType,
    types: Vec<DataType>,
)
    ensures
        DataType::Number(number).view() == DataTypeModel::Number(number),
        DataType::String.view() is String,
        DataType::Variant.view() is Variant,
        DataType::Nullable(Box::new(inner)).view() == DataTypeModel::Nullable(
            Box::new(inner.view()),
        ),
        DataType::Tuple(types).view() is Tuple,
        DataType::Tuple(types).view()->Tuple_0.len() == types@.len(),
        forall|i: int|
            0 <= i < types@.len() ==> #[trigger] DataType::Tuple(types).view()->Tuple_0[i]
                == types@[i].view(),
{
}

/// A data type of a table is modelled by its kind and, part by part, by what it
/// is made of.
pub proof fn law_table_data_type_view(
    number: schema::NumberDataType,
    inner: TableDataType,
    fields_name: Vec<String>,
    fields_type: Vec<TableDataType>,
)
    ensures
        TableDataType::Number(number).view() == TableDataTypeModel::Number(number),
        TableDataType::String.view() is String,
        TableDataType::Variant.view() is Variant,
        TableDataType::Nullable(Box::new(inner)).view() == TableDataTypeModel::Nullable(
            Box::new(inner.view()),
        ),
        ({
            let tuple = (TableDataType::Tuple { fields_name, fields_type }).view();
            &&& tuple is Tuple
            &&& tuple->fields_name.len() == fields_name@.len()
            &&& forall|i: int|
                0 <= i < fields_name@.len() ==> #[trigger] tuple->fields_name[i]
                    == fields_name@[i]@
            &&& tuple->fields_type.len() == fields_type@.len()
            &&& forall|i: int|
                0 <= i < fields_type@.len() ==> #[trigger] tuple->fields_type[i]
                    == fields_type@[i].view()
        }),
{
}

/// Fields and schemas are modelled field by field, with all that belongs to each.
pub proof fn law_schema_views(
    field: DataField,
    fields: DataSchema,
    table_field: TableField,
    table_fields: TableSchema,
)
    ensures
        field@.name == field.name@,
        field@.data_type == field.data_type.view(),
        field@.default_expr == schema::optional_text(field.default_expr),
        field@.computed_expr == schema::optional_computed(field.computed_expr),
        fields@.len() == fields.fields@.len(),
        forall|i: int| 0 <= i < fields.fields@.len() ==> #[trigger] fields@[i] == fields.fields@[i]@,
        table_field@.name == table_field.name@,
        table_field@.data_type == table_field.data_type.view(),
        table_field@.default_expr == schema::optional_text(table_field.default_expr),
        table_field@.computed_expr == schema::optional_computed(table_field.computed_expr),
        table_fields@.len() == table_fields.fields@.len(),
        forall|i: int|
            0 <= i < table_fields.fields@.len() ==> #[trigger] table_fields@[i]
                == table_fields.fields@[i]@,
{
}

/// Columns and blocks are modelled value by value.
pub proof fn law_column_views(
    ids: Vec<i32>,
    numbers: Vec<i64>,
    rows: Vec<Vec<u8>>,
    inner: Vec<Column>,
    data: DataBlock,
)
    ensures
        Column::Int32(ids).view() == ColumnModel::Int32(ids@),
        Column::Int64(numbers).view() == ColumnModel::Int64(numbers@),
        Column::String(rows).view() == ColumnModel::String(block::byte_rows(rows@)),
        Column::Variant(rows).view() == ColumnModel::Variant(block::byte_rows(rows@)),
        Column::Tuple(inner).view() is Tuple,
        Column::Tuple(inner).view()->Tuple_0.len() == inner@.len(),
        forall|i: int|
            0 <= i < inner@.len() ==> #[trigger] Column::Tuple(inner).view()->Tuple_0[i]
                == inner@[i].view(),
        data@.len() == data.columns@.len(),
        forall|i: int|
            0 <= i < data.columns@.len() ==> #[trigger] data@[i] == data.columns@[i].view(),
{
}

/// A configuration is modelled by all that it says.
pub proof fn law_config_views(conf: InnerConfig, params: StorageParams)
    ensures
        conf@.tenant_id == conf.query.tenant_id@,
        conf@.cluster_id == conf.query.cluster_id@,
        conf@.endpoints == schema::texts(conf.meta.endpoints@),
        conf@.storage == conf.storage.params@,
        ({
            match params {
                StorageParams::Fs { root } => params@ is Fs && params@->root == root@,
                StorageParams::Other { location } => {
                    params@ is Other && params@->location == location@
                },
            }
        }),
{
}

/// Plans are modelled by all that they ask for.
pub proof fn law_plan_views(table: CreateTablePlan, database: CreateDatabasePlan, path: TablePath)
    ensures
        table@.if_not_exists == table.if_not_exists,
        table@.tenant == table.tenant@,
        table@.catalog == table.catalog@,
        table@.database == table.database@,
        table@.table == table.table@,
        table@.schema == table.schema@,
        table@.engine == table.engine,
        table@.storage_params is None <==> table.storage_params is None,
        table.storage_params is Some ==> table@.storage_params == Some(table.storage_params->0@),
        table@.read_only_attach == table.read_only_attach,
        table@.part_prefix == table.part_prefix@,
        table@.options.len() == table.options@.len(),
        forall|i: int|
            0 <= i < table.options@.len() ==> #[trigger] table@.options[i] == (
                table.options@[i].0,
                table.options@[i].1@,
            ),
        table@.field_comments == schema::texts(table.field_comments@),
        table@.as_select == schema::optional_text(table.as_select),
        table@.cluster_key == schema::optional_text(table.cluster_key),
        database@.if_not_exists == database.if_not_exists,
        database@.tenant == database.tenant@,
        database@.catalog == database.catalog@,
        database@.database == database.database@,
        database@.engine == database.engine@,
        path@.catalog == path.catalog@,
        path@.tenant == path.tenant@,
        path@.database == path.database@,
        path@.table == path.table@,
{
}

/// Users, and the actions of a session and of a start-up, are modelled by all
/// that they carry.
pub proof fn law_session_views(user: UserInfo, session_step: SessionStep, init_step: InitStep)
    ensures
        user@.name == user.name@,
        user@.hostname == user.hostname@,
        user@.grants == user.grants@,
        ({
            match user.auth_info {
                AuthInfo::Password { hash_method, hash_value } => {
                    user@.hash_method == hash_method && user@.hash_value == hash_value@
                },
            }
        }),
        ({
            let model = session_step@;
            match session_step {
                SessionStep::CreateSession => model is CreateSession,
                SessionStep::SetAuthedUser { user, role } => {
                    &&& model is SetAuthedUser
                    &&& model->user == user@
                    &&& model->role == schema::optional_text(role)
                },
                SessionStep::SetMaxThreads { max_threads } => {
                    &&& model is SetMaxThreads
                    &&& model->max_threads == max_threads
                },
            }
        }),
        ({
            let model = init_step@;
            match init_step {
                InitStep::SetPanicHook => model is SetPanicHook,
                InitStep::SetEnv { variable, value } => {
                    &&& model is SetEnv
                    &&& model->variable == variable@
                    &&& model->value == value@
                },
                InitStep::InitTestingInstance { thread_name } => {
                    &&& model is InitTestingInstance
                    &&& model->thread_name == thread_name@
                },
                InitStep::InitGlobalServices { config } => {
                    &&& model is InitGlobalServices
                    &&& model->InitGlobalServices_config == config@
                },
                InitStep::InitLicenseManager { tenant } => {
                    &&& model is InitLicenseManager
                    &&& model->tenant == tenant@
                },
                InitStep::RegisterCluster { config } => {
                    &&& model is RegisterCluster
                    &&& model->RegisterCluster_config == config@
                },
            }
        }),
{
}

/// The actions of an insertion are modelled by all that they carry.
pub proof fn law_append_views(step: AppendStep)
    ensures
        ({
            let model = step@;
            match step {
                AppendStep::NewQueryContext => model is NewQueryContext,
                AppendStep::AddBlocksSource { blocks, sources } => {
                    &&& model is AddBlocksSource
                    &&& model->blocks == block::block_columns(blocks@)
                    &&& model->sources == sources
                },
                AppendStep::FillMissingColumns { source_schema } => {
                    &&& model is FillMissingColumns
                    &&& model->source_schema == source_schema@
                },
                AppendStep::AppendData { mode } => model is AppendData && model->mode == mode,
                AppendStep::CommitInsertion {
                    copied_files,
                    stream_updates,
                    overwrite,
                    prev_snapshot,
                } => {
                    &&& model is CommitInsertion
                    &&& model->copied_files is None <==> copied_files is None
                    &&& copied_files is Some ==> model->copied_files == Some(
                        schema::texts(copied_files->0@),
                    )
                    &&& model->stream_updates == schema::texts(stream_updates@)
                    &&& model->overwrite == overwrite
                    &&& model->prev_snapshot == schema::optional_text(prev_snapshot)
                },
                AppendStep::AddEmptySink => model is AddEmptySink,
                AppendStep::ExecutePipeline => model is ExecutePipeline,
            }
        }),
{
}

} // verus!
