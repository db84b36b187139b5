use test_kits::append::AppendMode;
use test_kits::append::AppendStep;
use test_kits::block::Column;
use test_kits::block::DataBlock;
use test_kits::config::InnerConfig;
use test_kits::config::MetaConfig;
use test_kits::config::QueryConfig;
use test_kits::config::StorageConfig;
use test_kits::config::StorageParams;
use test_kits::decimal::push_decimal;
use test_kits::fixture::gen_db_name;
use test_kits::fixture::TestFixture;
use test_kits::guard::TestGuard;
use test_kits::plan::CreateDatabasePlan;
use test_kits::plan::CreateTablePlan;
use test_kits::plan::Engine;
use test_kits::plan::TableOption;
use test_kits::schema::ComputedExpr;
use test_kits::schema::DataField;
use test_kits::schema::DataSchema;
use test_kits::schema::DataType;
use test_kits::schema::NumberDataType;
use test_kits::schema::TableDataType;
use test_kits::schema::TableField;
use test_kits::schema::TableSchema;
use test_kits::session::AuthInfo;
use test_kits::session::GrantObject;
use test_kits::session::InitStep;
use test_kits::session::PasswordHashMethod;
use test_kits::session::PrivilegeSet;
use test_kits::session::SessionStep;
use test_kits::session::SetupStep;
use test_kits::session::UserInfo;
use test_kits::source::SyncReceiverSource;
use test_kits::workflow::Directive;
use test_kits::workflow::Workflow;

fn config() -> InnerConfig {
    InnerConfig {
        query: QueryConfig {
            tenant_id: "tenant".to_string(),
            cluster_id: "cluster".to_string(),
        },
        meta: MetaConfig {
            endpoints: vec!["here".to_string(), "there".to_string()],
        },
        storage: StorageConfig {
            params: StorageParams::Fs {
                root: "/data".to_string(),
            },
        },
    }
}

fn fixture() -> TestFixture {
    TestFixture::with_prefix(config(), "0a1b".to_string(), "main".to_string())
}

fn table_schema() -> TableSchema {
    TableSchema {
        fields: vec![TableField::new("id", TableDataType::Number(NumberDataType::Int32))],
    }
}

fn table_plan(comments: Vec<&str>, cluster_key: Option<&str>) -> CreateTablePlan {
    CreateTablePlan {
        if_not_exists: false,
        tenant: "tenant".to_string(),
        catalog: "default".to_string(),
        database: "db_0a1b".to_string(),
        table: "tbl_0a1b".to_string(),
        schema: table_schema(),
        engine: Engine::Fuse,
        storage_params: None,
        read_only_attach: false,
        part_prefix: "".to_string(),
        options: vec![(TableOption::DatabaseId, "1".to_string())],
        field_comments: comments.iter().map(|comment| comment.to_string()).collect(),
        as_select: None,
        cluster_key: cluster_key.map(|key| key.to_string()),
    }
}

/// Every action that a workflow calls for, where all of them succeed.
fn performed<A>(mut workflow: Workflow<A>) -> Vec<A> {
    let mut actions = Vec::new();
    loop {
        match workflow.advance::<()>(Ok(())) {
            Directive::Perform(action) => actions.push(action),
            Directive::Finished => return actions,
            Directive::Failed(_) => panic!("nothing failed"),
        }
    }
}

#[test]
fn names_derive_from_the_prefix() {
    assert_eq!(gen_db_name("x"), "db_x");
    assert_eq!(fixture().default_db_name(), "db_0a1b");
    assert_eq!(fixture().default_table_name(), "tbl_0a1b");
    assert_eq!(fixture().default_catalog_name(), "default");
    assert_eq!(fixture().default_tenant(), "tenant");
}

#[test]
fn guard_keeps_the_name_of_the_thread() {
    assert_eq!(TestGuard::new("worker".to_string()).thread_name(), "worker");
    assert_eq!(fixture().guard().thread_name(), "main");
}

#[test]
fn storage_is_read_from_the_config() {
    assert_eq!(fixture().storage_root(), "/data");
    let mut conf = config();
    conf.storage.params = StorageParams::Other {
        location: "s3".to_string(),
    };
    let remote = TestFixture::with_prefix(conf.clone(), "p".to_string(), "t".to_string());
    assert_eq!(remote.storage_params(), &conf.storage.params);
}

#[test]
fn config_is_cloned_as_it_is() {
    assert_eq!(config().clone(), config());
}

#[test]
fn setup_chooses_a_random_prefix() {
    let one = TestFixture::setup_with_custom(config(), "main".to_string());
    let two = TestFixture::setup_with_custom(config(), "main".to_string());
    assert_ne!(one.default_db_name(), two.default_db_name());
    assert_ne!(one.default_table_name(), two.default_table_name());
    assert_eq!(one.default_tenant(), "tenant");
    assert_eq!(one.guard().thread_name(), "main");
    let name = one.default_db_name();
    let prefix = name.strip_prefix("db_").unwrap();
    assert_eq!(prefix.len(), 32);
    assert!(prefix.chars().all(|c| matches!(c, '0'..='9' | 'a'..='f')));
    assert_eq!(prefix.as_bytes()[12], b'4');
    assert!(matches!(prefix.as_bytes()[16], b'8' | b'9' | b'a' | b'b'));
}

#[test]
fn default_schema_has_defaults() {
    let nullable = || DataType::Nullable(Box::new(DataType::Number(NumberDataType::Int32)));
    assert_eq!(
        TestFixture::default_schema(),
        DataSchema {
            fields: vec![
                DataField {
                    name: "id".to_string(),
                    data_type: DataType::Number(NumberDataType::Int32),
                    default_expr: Some("0".to_string()),
                    computed_expr: None,
                },
                DataField {
                    name: "t".to_string(),
                    data_type: DataType::Tuple(vec![nullable(), nullable()]),
                    default_expr: Some("(0,0)".to_string()),
                    computed_expr: None,
                },
            ],
        }
    );
}

#[test]
fn variant_schema_has_a_document() {
    assert_eq!(
        TestFixture::variant_schema(),
        DataSchema {
            fields: vec![
                DataField::new("id", DataType::Number(NumberDataType::Int32)),
                DataField::new("v", DataType::Variant),
            ],
        }
    );
}

#[test]
fn computed_schema_computes_four_columns() {
    let computed = |name: &str, data_type: DataType, expr: ComputedExpr| DataField {
        name: name.to_string(),
        data_type,
        default_expr: None,
        computed_expr: Some(expr),
    };
    let int64 = || DataType::Number(NumberDataType::Int64);
    assert_eq!(
        TestFixture::computed_schema(),
        DataSchema {
            fields: vec![
                DataField::new("id", DataType::Number(NumberDataType::Int32)),
                computed(
                    "a1",
                    DataType::String,
                    ComputedExpr::Virtual("reverse(c)".to_string())
                ),
                computed("a2", DataType::String, ComputedExpr::Stored("upper(c)".to_string())),
                computed("b1", int64(), ComputedExpr::Virtual("(d + 2)".to_string())),
                computed("b2", int64(), ComputedExpr::Stored("((d + 1) * 3)".to_string())),
                DataField::new("c", DataType::String),
                DataField::new("d", int64()),
            ],
        }
    );
}

#[test]
fn table_plans_differ_in_comments_and_cluster_key() {
    let fixture = fixture();
    assert_eq!(
        fixture.default_create_table_plan(table_schema()),
        table_plan(vec!["number", "tuple"], Some("(id)"))
    );
    assert_eq!(
        fixture.normal_create_table_plan(table_schema()),
        table_plan(vec!["number", "tuple"], None)
    );
    assert_eq!(
        fixture.variant_create_table_plan(table_schema()),
        table_plan(vec![], None)
    );
    assert_eq!(
        fixture.computed_create_table_plan(table_schema()),
        table_plan(vec![], None)
    );
}

#[test]
fn normal_table_is_the_default_table_without_its_key() {
    let mut plan = fixture().default_create_table_plan(table_schema());
    plan.cluster_key = None;
    assert_eq!(plan, fixture().normal_create_table_plan(table_schema()));
    assert_eq!(plan.field_comments.len(), TestFixture::default_schema().fields.len());
}

#[test]
fn database_plan_names_the_fixture_database() {
    assert_eq!(
        fixture().create_database_plan("someone".to_string()),
        CreateDatabasePlan {
            if_not_exists: false,
            tenant: "someone".to_string(),
            catalog: "default".to_string(),
            database: "db_0a1b".to_string(),
            engine: "".to_string(),
        }
    );
}

#[test]
fn created_table_is_in_the_database_and_is_found() {
    let fixture = fixture();
    let table = fixture.variant_create_table_plan(table_schema());
    let database = fixture.create_database_plan(fixture.default_tenant());
    assert_eq!(table.tenant, database.tenant);
    assert_eq!(table.catalog, database.catalog);
    assert_eq!(table.database, database.database);
    let path = fixture.default_table_path();
    assert_eq!(path.catalog, "default");
    assert_eq!(path.catalog, table.catalog);
    assert_eq!(path.tenant, table.tenant);
    assert_eq!(path.database, table.database);
    assert_eq!(path.table, table.table);
}

#[test]
fn sessions_act_for_root() {
    assert_eq!(
        TestFixture::session_user(),
        UserInfo {
            name: "root".to_string(),
            hostname: "%".to_string(),
            auth_info: AuthInfo::Password {
                hash_method: PasswordHashMethod::Sha256,
                hash_value: Vec::from("pass"),
            },
            grants: vec![
                (GrantObject::Global, PrivilegeSet::AvailableOnGlobal),
                (GrantObject::Global, PrivilegeSet::AvailableOnStage),
            ],
        }
    );
    assert_eq!(
        performed(TestFixture::create_session_steps()),
        vec![
            SessionStep::CreateSession,
            SessionStep::SetAuthedUser {
                user: TestFixture::session_user(),
                role: None,
            },
            SessionStep::SetMaxThreads { max_threads: 8 },
        ]
    );
}

#[test]
fn global_state_comes_up_in_order() {
    assert_eq!(
        performed(TestFixture::init_global_steps(&config(), Some("main".to_string()))),
        vec![
            InitStep::SetPanicHook,
            InitStep::SetEnv {
                variable: "UNIT_TEST".to_string(),
                value: "TRUE".to_string(),
            },
            InitStep::InitTestingInstance {
                thread_name: "main".to_string(),
            },
            InitStep::InitGlobalServices { config: config() },
            InitStep::InitLicenseManager {
                tenant: "tenant".to_string(),
            },
            InitStep::RegisterCluster { config: config() },
        ]
    );
    let steps = performed(TestFixture::init_global_steps(&config(), None));
    assert_eq!(steps.len(), 5);
    assert_eq!(steps[2], InitStep::InitGlobalServices { config: config() });
}

/// A table with one column of its own and one that is computed.
fn half_computed_table() -> TableSchema {
    let mut schema = table_schema();
    schema.fields.push(TableField {
        name: "twice".to_string(),
        data_type: TableDataType::Number(NumberDataType::Int32),
        default_expr: None,
        computed_expr: Some(ComputedExpr::Stored("(id * 2)".to_string())),
    });
    schema
}

fn two_blocks() -> Vec<DataBlock> {
    let block = |id: i32| DataBlock {
        columns: vec![Column::Int32(vec![id])],
    };
    vec![block(1), block(2)]
}

fn append_steps(overwrite: bool, commit: bool) -> Vec<AppendStep> {
    performed(TestFixture::append_commit_steps(
        half_computed_table(),
        two_blocks(),
        overwrite,
        commit,
    ))
}

fn commit(overwrite: bool) -> AppendStep {
    AppendStep::CommitInsertion {
        copied_files: None,
        stream_updates: vec![],
        overwrite,
        prev_snapshot: None,
    }
}

#[test]
fn rows_are_committed_on_request() {
    assert_eq!(
        append_steps(true, true),
        vec![
            AppendStep::NewQueryContext,
            AppendStep::AddBlocksSource {
                blocks: two_blocks(),
                sources: 1,
            },
            AppendStep::FillMissingColumns {
                source_schema: table_schema(),
            },
            AppendStep::AppendData {
                mode: AppendMode::Normal,
            },
            commit(true),
            AppendStep::ExecutePipeline,
        ]
    );
    assert_eq!(append_steps(false, true)[4], commit(false));
    let dropped = append_steps(false, false);
    assert_eq!(dropped[4], AppendStep::AddEmptySink);
    assert_eq!(dropped, append_steps(true, false));
}

#[test]
fn rows_are_appended_once_in_normal_mode() {
    for (overwrite, commit) in [(false, false), (false, true), (true, false), (true, true)] {
        let steps = append_steps(overwrite, commit);
        let appends: Vec<usize> = (0..steps.len())
            .filter(|i| matches!(steps[*i], AppendStep::AppendData { .. }))
            .collect();
        assert_eq!(appends, vec![3]);
        assert_eq!(steps[3], AppendStep::AppendData { mode: AppendMode::Normal });
        assert_eq!(steps[0], AppendStep::NewQueryContext);
        assert_eq!(steps.last(), Some(&AppendStep::ExecutePipeline));
    }
}

#[test]
fn setup_opens_a_session_and_then_a_context() {
    assert_eq!(
        performed(TestFixture::setup_steps()),
        vec![
            SetupStep::RunSetup,
            SetupStep::CreateDummySession,
            SetupStep::CreateQueryContext,
        ]
    );
    let mut steps = TestFixture::setup_steps();
    assert_eq!(steps.advance::<&str>(Ok(())), Directive::Perform(SetupStep::RunSetup));
    assert_eq!(steps.advance(Err("no engine")), Directive::Failed("no engine"));
}

#[test]
fn first_failure_ends_a_workflow() {
    let mut workflow = Workflow::new(vec!['a', 'b', 'c']);
    assert_eq!(workflow.advance::<&str>(Ok(())), Directive::Perform('a'));
    assert_eq!(workflow.advance::<&str>(Ok(())), Directive::Perform('b'));
    assert_eq!(workflow.advance(Err("broken")), Directive::Failed("broken"));
    assert_eq!(workflow.advance::<&str>(Ok(())), Directive::Finished);
}

#[test]
fn workflow_without_actions_finishes() {
    let mut workflow: Workflow<u8> = Workflow::new(vec![]);
    assert_eq!(workflow.advance::<()>(Ok(())), Directive::Finished);
}

#[test]
fn source_hands_on_what_it_received() {
    assert_eq!(SyncReceiverSource::name(), "SyncReceiverSource");
    assert_eq!(SyncReceiverSource::generate::<u8, &str>(None), Ok(None));
    assert_eq!(SyncReceiverSource::generate::<u8, &str>(Some(Err("lost"))), Err("lost"));
    assert_eq!(SyncReceiverSource::generate::<u8, &str>(Some(Ok(7))), Ok(Some(7)));
}

#[test]
fn numbers_are_written_in_decimal() {
    let written = |n: i64| {
        let mut buf = vec![b'>'];
        push_decimal(&mut buf, n);
        String::from_utf8(buf).unwrap()
    };
    assert_eq!(written(0), ">0");
    assert_eq!(written(10), ">10");
    assert_eq!(written(-7), ">-7");
    assert_eq!(written(i64::MAX), ">9223372036854775807");
    assert_eq!(written(i64::MIN), ">-9223372036854775808");
}
