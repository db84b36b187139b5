//! The fixture: one configuration, and names that no other fixture uses.

use vstd::prelude::*;

use crate::config::InnerConfig;
use crate::config::InnerConfigModel;
use crate::config::StorageParams;
use crate::guard::TestGuard;

verus! {

/// A configured engine together with the names of the database and the table
/// that belong to it.
#[derive(Debug)]
pub struct TestFixture {
    conf: InnerConfig,
    prefix: String,
    guard: TestGuard,
}

/// What a `TestFixture` stands for.
#[verifier::ext_equal]
pub struct FixtureModel {
    pub conf: InnerConfigModel,
    pub prefix: Seq<char>,
    pub thread_name: Seq<char>,
}

impl View for TestFixture {
    type V = FixtureModel;

    closed spec fn view(&self) -> FixtureModel {
        FixtureModel { conf: self.conf@, prefix: self.prefix@, thread_name: self.guard@ }
    }
}

/// A lower-case hexadecimal digit.
pub open spec fn is_hex_digit(c: char) -> bool {
    '0' <= c <= '9' || 'a' <= c <= 'f'
}

/// A random (version 4) UUID, written as 32 lower-case hexadecimal digits.
pub open spec fn is_random_uuid(text: Seq<char>) -> bool {
    &&& text.len() == 32
    &&& forall|i: int| 0 <= i < text.len() ==> is_hex_digit(#[trigger] text[i])
    &&& text[12] == '4'
    &&& text[16] == '8' || text[16] == '9' || text[16] == 'a' || text[16] == 'b'
}

/// Calls `uuid::Uuid::new_v4`, and writes the result with `simple` and
/// `to_string`. Trusted: the text is that of some version 4 UUID, in the form
/// without hyphens. Nothing is said of which one, nor that no other call gives
/// the same. The call panics where the machine has no source of random bytes.
#[verifier::external_body]
fn random_prefix() -> (prefix: String)
    ensures
        is_random_uuid(prefix@),
{
    uuid::Uuid::new_v4().simple().to_string()
}

/// The name of the database that belongs to this prefix.
pub open spec fn db_name(prefix: Seq<char>) -> Seq<char> {
    "db_"@ + prefix
}

/// The name of the table that belongs to this prefix.
pub open spec fn table_name(prefix: Seq<char>) -> Seq<char> {
    "tbl_"@ + prefix
}

/// The name of the database that belongs to this prefix.
pub fn gen_db_name(prefix: &str) -> (name: String)
    ensures
        name@ == db_name(prefix@),
{
    "db_".to_owned().concat(prefix)
}

impl TestFixture {
    /// A fixture for an engine that has been set up with `conf`, on the thread
    /// of this name. Its prefix is chosen at random.
    pub fn setup_with_custom(conf: InnerConfig, thread_name: String) -> (fixture: TestFixture)
        ensures
            fixture@.conf == conf@,
            fixture@.thread_name == thread_name@,
            is_random_uuid(fixture@.prefix),
    {
        let prefix = random_prefix();
        Self::with_prefix(conf, prefix, thread_name)
    }

    /// A fixture with the given prefix.
    pub fn with_prefix(conf: InnerConfig, prefix: String, thread_name: String) -> (fixture:
        TestFixture)
        ensures
            fixture@ == (FixtureModel {
                conf: conf@,
                prefix: prefix@,
                thread_name: thread_name@,
            }),
    {
        TestFixture { conf, prefix, guard: TestGuard::new(thread_name) }
    }

    /// The mark of the thread that the fixture belongs to.
    pub fn guard(&self) -> (guard: &TestGuard)
        ensures
            guard@ == self@.thread_name,
    {
        &self.guard
    }

    /// Where the engine stores its data.
    pub fn storage_params(&self) -> (params: &StorageParams)
        ensures
            params@ == self@.conf.storage,
    {
        &self.conf.storage.params
    }

    /// The directory that the engine stores its data in.
    pub fn storage_root(&self) -> (root: &str)
        requires
            self@.conf.storage is Fs,
        ensures
            root@ == self@.conf.storage->root,
    {
        match &self.conf.storage.params {
            StorageParams::Fs { root } => root.as_str(),
            StorageParams::Other { location } => {
                assert(false);
                location.as_str()
            },
        }
    }

    /// The tenant that the engine is configured for.
    pub fn default_tenant(&self) -> (tenant: String)
        ensures
            tenant@ == self@.conf.tenant_id,
    {
        self.conf.query.tenant_id.clone()
    }

    /// The name of the fixture's database.
    pub fn default_db_name(&self) -> (name: String)
        ensures
            name@ == db_name(self@.prefix),
    {
        gen_db_name(self.prefix.as_str())
    }

    /// The name of the catalog that the fixture's database is in.
    pub fn default_catalog_name(&self) -> (name: String)
        ensures
            name@ == "default"@,
    {
        "default".to_owned()
    }

    /// The name of the fixture's table.
    pub fn default_table_name(&self) -> (name: String)
        ensures
            name@ == table_name(self@.prefix),
    {
        "tbl_".to_owned().concat(self.prefix.as_str())
    }
}

/// A random UUID has 32 characters, each of them one of sixteen digits; its
/// thirteenth tells the version, and its seventeenth the variant.
pub proof fn law_random_uuid_form(text: Seq<char>, i: int)
    requires
        is_random_uuid(text),
        0 <= i < 32,
    ensures
        text.len() == 32,
        48 <= text[i] as int <= 57 || 97 <= text[i] as int <= 102,
        text[12] == '4',
        text[16] == '8' || text[16] == '9' || text[16] == 'a' || text[16] == 'b',
{
    assert(is_hex_digit(text[i]));
}

/// Fixtures with different prefixes use different databases and different tables.
pub proof fn law_names_do_not_collide(prefix: Seq<char>, other: Seq<char>)
    requires
        prefix != other,
    ensures
        db_name(prefix) != db_name(other),
        table_name(prefix) != table_name(other),
{
    assert(db_name(prefix).skip("db_"@.len() as int) =~= prefix);
    assert(db_name(other).skip("db_"@.len() as int) =~= other);
    assert(table_name(prefix).skip("tbl_"@.len() as int) =~= prefix);
    assert(table_name(other).skip("tbl_"@.len() as int) =~= other);
}

} // verus!
