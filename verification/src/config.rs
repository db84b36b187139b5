//! The parts of an engine's configuration that a fixture reads.

use vstd::prelude::*;

use crate::schema;

verus! {

/// Where the engine stores its data.
#[derive(Debug, PartialEq, Eq)]
pub enum StorageParams {
    /// In a directory of the local file system.
    Fs { root: String },
    /// Anywhere else; the text says where.
    Other { location: String },
}

/// What `StorageParams` stand for.
#[verifier::ext_equal]
pub enum StorageParamsModel {
    Fs { root: Seq<char> },
    Other { location: Seq<char> },
}

impl View for StorageParams {
    type V = StorageParamsModel;

    open spec fn view(&self) -> StorageParamsModel {
        match self {
            StorageParams::Fs { root } => StorageParamsModel::Fs { root: root@ },
            StorageParams::Other { location } => StorageParamsModel::Other { location: location@ },
        }
    }
}

impl Clone for StorageParams {
    fn clone(&self) -> (params: Self)
        ensures
            params@ == self@,
    {
        match self {
            StorageParams::Fs { root } => StorageParams::Fs { root: root.clone() },
            StorageParams::Other { location } => StorageParams::Other {
                location: location.clone(),
            },
        }
    }
}

/// Who the engine serves, and with whom.
#[derive(Debug, PartialEq, Eq)]
pub struct QueryConfig {
    pub tenant_id: String,
    pub cluster_id: String,
}

/// Where the engine finds its metadata.
#[derive(Debug, PartialEq, Eq)]
pub struct MetaConfig {
    pub endpoints: Vec<String>,
}

/// Where the engine finds its data.
#[derive(Debug, PartialEq, Eq)]
pub struct StorageConfig {
    pub params: StorageParams,
}

/// The configuration of an engine.
#[derive(Debug, PartialEq, Eq)]
pub struct InnerConfig {
    pub query: QueryConfig,
    pub meta: MetaConfig,
    pub storage: StorageConfig,
}

/// What an `InnerConfig` stands for.
#[verifier::ext_equal]
pub struct InnerConfigModel {
    pub tenant_id: Seq<char>,
    pub cluster_id: Seq<char>,
    pub endpoints: Seq<Seq<char>>,
    pub storage: StorageParamsModel,
}

impl View for InnerConfig {
    type V = InnerConfigModel;

    open spec fn view(&self) -> InnerConfigModel {
        InnerConfigModel {
            tenant_id: self.query.tenant_id@,
            cluster_id: self.query.cluster_id@,
            endpoints: schema::texts(self.meta.endpoints@),
            storage: self.storage.params@,
        }
    }
}

impl Clone for InnerConfig {
    fn clone(&self) -> (conf: Self)
        ensures
            conf@ == self@,
    {
        let mut endpoints: Vec<String> = Vec::new();
        let mut i: usize = 0;
        while i < self.meta.endpoints.len()
            invariant
                i <= self.meta.endpoints@.len(),
                endpoints@ == self.meta.endpoints@.take(i as int),
            decreases self.meta.endpoints@.len() - i,
        {
            endpoints.push(self.meta.endpoints[i].clone());
            i = i + 1;
            assert(endpoints@ =~= self.meta.endpoints@.take(i as int));
        }
        assert(endpoints@ =~= self.meta.endpoints@);
        InnerConfig {
            query: QueryConfig {
                tenant_id: self.query.tenant_id.clone(),
                cluster_id: self.query.cluster_id.clone(),
            },
            meta: MetaConfig { endpoints },
            storage: StorageConfig { params: self.storage.params.clone() },
        }
    }
}

} // verus!
