//! How the global state of an engine and its sessions come up.

use vstd::prelude::*;

use crate::config::InnerConfig;
use crate::config::InnerConfigModel;
use crate::fixture::TestFixture;
use crate::schema;
use crate::workflow;
use crate::workflow::Workflow;

verus! {

/// The number of threads that each session and each query of a fixture may use.
pub const MAX_THREADS: u64 = 8;

/// What a password was hashed with.
#[derive(Clone, Copy, Debug, PartialEq, Eq, Structural)]
pub enum PasswordHashMethod {
    Sha256,
}

/// How a user proves who they are.
#[derive(Debug, PartialEq, Eq)]
pub enum AuthInfo {
    Password { hash_method: PasswordHashMethod, hash_value: Vec<u8> },
}

/// What privileges are granted on.
#[derive(Clone, Copy, Debug, PartialEq, Eq, Structural)]
pub enum GrantObject {
    Global,
}

/// Sets of privileges that the engine knows by name.
#[derive(Clone, Copy, Debug, PartialEq, Eq, Structural)]
pub enum PrivilegeSet {
    /// All that can be granted globally.
    AvailableOnGlobal,
    /// All that can be granted on a stage.
    AvailableOnStage,
}

/// A user of the engine.
#[derive(Debug, PartialEq, Eq)]
pub struct UserInfo {
    pub name: String,
    pub hostname: String,
    pub auth_info: AuthInfo,
    /// In the order in which they are granted.
    pub grants: Vec<(GrantObject, PrivilegeSet)>,
}

/// What a `UserInfo` stands for.
#[verifier::ext_equal]
pub struct UserInfoModel {
    pub name: Seq<char>,
    pub hostname: Seq<char>,
    pub hash_method: PasswordHashMethod,
    pub hash_value: Seq<u8>,
    pub grants: Seq<(GrantObject, PrivilegeSet)>,
}

impl View for UserInfo {
    type V = UserInfoModel;

    open spec fn view(&self) -> UserInfoModel {
        match self.auth_info {
            AuthInfo::Password { hash_method, hash_value } => UserInfoModel {
                name: self.name@,
                hostname: self.hostname@,
                hash_method,
                hash_value: hash_value@,
                grants: self.grants@,
            },
        }
    }
}

/// The user that every session of a fixture acts for. The bytes spell `pass`.
pub open spec fn root_user() -> UserInfoModel {
    UserInfoModel {
        name: "root"@,
        hostname: "%"@,
        hash_method: PasswordHashMethod::Sha256,
        hash_value: seq![112u8, 97u8, 115u8, 115u8],
        grants: seq![
            (GrantObject::Global, PrivilegeSet::AvailableOnGlobal),
            (GrantObject::Global, PrivilegeSet::AvailableOnStage),
        ],
    }
}

/// The actions that bring up a session.
#[derive(Debug, PartialEq, Eq)]
pub enum SessionStep {
    /// Ask the engine for a session.
    CreateSession,
    /// Let the session act for this user, in this role.
    SetAuthedUser { user: UserInfo, role: Option<String> },
    /// Limit the threads that the session uses.
    SetMaxThreads { max_threads: u64 },
}

/// What a `SessionStep` stands for.
#[verifier::ext_equal]
pub enum SessionStepModel {
    CreateSession,
    SetAuthedUser { user: UserInfoModel, role: Option<Seq<char>> },
    SetMaxThreads { max_threads: u64 },
}

impl View for SessionStep {
    type V = SessionStepModel;

    open spec fn view(&self) -> SessionStepModel {
        match *self {
            SessionStep::CreateSession => SessionStepModel::CreateSession,
            SessionStep::SetAuthedUser { user, role } => SessionStepModel::SetAuthedUser {
                user: user@,
                role: schema::optional_text(role),
            },
            SessionStep::SetMaxThreads { max_threads } => SessionStepModel::SetMaxThreads {
                max_threads,
            },
        }
    }
}

/// The actions that bring up a session, in order. It acts for the fixture's
/// user, with no role of its own.
pub open spec fn session_steps() -> Seq<SessionStepModel> {
    seq![
        SessionStepModel::CreateSession,
        SessionStepModel::SetAuthedUser { user: root_user(), role: None },
        SessionStepModel::SetMaxThreads { max_threads: MAX_THREADS },
    ]
}

/// The actions that a fixture is built on. What they come up with, and the name
/// of the thread, are what `TestFixture::setup_with_custom` takes.
#[derive(Clone, Copy, Debug, PartialEq, Eq, Structural)]
pub enum SetupStep {
    /// Bring up the engine, and learn its configuration.
    RunSetup,
    /// Open the default session, which is of the kind that does nothing of its
    /// own accord. It counts towards the sessions that may be active at once.
    CreateDummySession,
    /// Open the default context, on the default session.
    CreateQueryContext,
}

/// The actions that bring up the global state of an engine.
#[derive(Debug, PartialEq, Eq)]
pub enum InitStep {
    /// Report panics through the engine's own hook.
    SetPanicHook,
    /// Set an environment variable.
    SetEnv { variable: String, value: String },
    /// Keep global instances apart by the name of this thread.
    InitTestingInstance { thread_name: String },
    /// Start the engine's services.
    InitGlobalServices { config: InnerConfig },
    /// Install the license manager for the tenant.
    InitLicenseManager { tenant: String },
    /// Make the node known to the others of its cluster.
    RegisterCluster { config: InnerConfig },
}

/// What an `InitStep` stands for.
#[verifier::ext_equal]
pub enum InitStepModel {
    SetPanicHook,
    SetEnv { variable: Seq<char>, value: Seq<char> },
    InitTestingInstance { thread_name: Seq<char> },
    InitGlobalServices { config: InnerConfigModel },
    InitLicenseManager { tenant: Seq<char> },
    RegisterCluster { config: InnerConfigModel },
}

impl View for InitStep {
    type V = InitStepModel;

    open spec fn view(&self) -> InitStepModel {
        match *self {
            InitStep::SetPanicHook => InitStepModel::SetPanicHook,
            InitStep::SetEnv { variable, value } => InitStepModel::SetEnv {
                variable: variable@,
                value: value@,
            },
            InitStep::InitTestingInstance { thread_name } => InitStepModel::InitTestingInstance {
                thread_name: thread_name@,
            },
            InitStep::InitGlobalServices { config } => InitStepModel::InitGlobalServices {
                config: config@,
            },
            InitStep::InitLicenseManager { tenant } => InitStepModel::InitLicenseManager {
                tenant: tenant@,
            },
            InitStep::RegisterCluster { config } => InitStepModel::RegisterCluster {
                config: config@,
            },
        }
    }
}

/// The actions that bring up the global state, in order. The process is marked
/// as one that runs tests. Only a build with debug assertions keeps instances
/// apart, by the name of the thread; without them there is no `thread_name`.
pub open spec fn init_steps(config: InnerConfigModel, thread_name: Option<Seq<char>>) -> Seq<
    InitStepModel,
> {
    seq![
        InitStepModel::SetPanicHook,
        InitStepModel::SetEnv { variable: "UNIT_TEST"@, value: "TRUE"@ },
    ] + (match thread_name {
        Some(name) => seq![InitStepModel::InitTestingInstance { thread_name: name }],
        None => Seq::empty(),
    }) + seq![
        InitStepModel::InitGlobalServices { config },
        InitStepModel::InitLicenseManager { tenant: config.tenant_id },
        InitStepModel::RegisterCluster { config },
    ]
}

impl TestFixture {
    /// The user that every session of a fixture acts for.
    pub fn session_user() -> (user: UserInfo)
        ensures
            user@ == root_user(),
    {
        let mut grants: Vec<(GrantObject, PrivilegeSet)> = Vec::new();
        grants.push((GrantObject::Global, PrivilegeSet::AvailableOnGlobal));
        grants.push((GrantObject::Global, PrivilegeSet::AvailableOnStage));
        let user = UserInfo {
            name: "root".to_owned(),
            hostname: "%".to_owned(),
            auth_info: AuthInfo::Password {
                hash_method: PasswordHashMethod::Sha256,
                hash_value: vec![112, 97, 115, 115],
            },
            grants,
        };
        assert(user@.hash_value =~= root_user().hash_value);
        assert(user@.grants =~= root_user().grants);
        user
    }

    /// How an engine is made ready for a fixture.
    pub fn setup_steps() -> (workflow: Workflow<SetupStep>)
        ensures
            workflow@ == seq![
                SetupStep::RunSetup,
                SetupStep::CreateDummySession,
                SetupStep::CreateQueryContext,
            ],
    {
        Workflow::new(
            vec![
                SetupStep::RunSetup,
                SetupStep::CreateDummySession,
                SetupStep::CreateQueryContext,
            ],
        )
    }

    /// How a session of a fixture comes up.
    pub fn create_session_steps() -> (workflow: Workflow<SessionStep>)
        ensures
            workflow::views(workflow@) == session_steps(),
    {
        let steps = vec![
            SessionStep::CreateSession,
            SessionStep::SetAuthedUser { user: Self::session_user(), role: None },
            SessionStep::SetMaxThreads { max_threads: MAX_THREADS },
        ];
        assert(workflow::views(steps@) =~= session_steps());
        Workflow::new(steps)
    }

    /// How the global state of an engine comes up. `thread_name` is given where
    /// the build has debug assertions.
    pub fn init_global_steps(config: &InnerConfig, thread_name: Option<String>) -> (workflow:
        Workflow<InitStep>)
        ensures
            workflow::views(workflow@) == init_steps(config@, schema::optional_text(thread_name)),
    {
        let mut steps: Vec<InitStep> = Vec::new();
        steps.push(InitStep::SetPanicHook);
        steps.push(
            InitStep::SetEnv { variable: "UNIT_TEST".to_owned(), value: "TRUE".to_owned() },
        );
        if let Some(name) = thread_name {
            steps.push(InitStep::InitTestingInstance { thread_name: name });
        }
        steps.push(InitStep::InitGlobalServices { config: config.clone() });
        steps.push(InitStep::InitLicenseManager { tenant: config.query.tenant_id.clone() });
        steps.push(InitStep::RegisterCluster { config: config.clone() });
        assert(workflow::views(steps@) =~= init_steps(config@, schema::optional_text(thread_name)));
        Workflow::new(steps)
    }
}

} // verus!
