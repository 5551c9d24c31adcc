//! The registration side of the pipeline cache: the engine records, per
//! pass, the full configuration a pipeline must be built from, and hands
//! out a stable key for it. The actual shader compilation is the host's
//! collaborator; its outcome is reported back to the render-graph
//! builder as a [`PipelineBuildOutcome`].

use vstd::prelude::*;

verus! {

/// Everything a pipeline is built from: the shader path, the descriptor
/// set layout it binds, the size in bytes of its push-constant range,
/// and the values of the two macros injected into shader compilation —
/// `NUM_IMAGES` (the length of the storage-image array) and
/// `WORKGROUP_SIZE` (the edge length of a compute workgroup).
pub struct PipelineConfig {
    pub shader_path: String,
    pub descriptor_set_layout: u64,
    pub push_constant_size: u32,
    pub num_images: u32,
    pub workgroup_size: u32,
}

/// A recoverable pipeline build error: the shader failed to compile or
/// the pipeline could not be registered. Carries the collaborator's
/// diagnostic text.
#[derive(Debug)]
pub struct PipelineErr {
    pub message: String,
}

impl PipelineErr {
    /// The diagnostic text of the error.
    pub fn message(&self) -> (m: &str)
        ensures
            m@ == self.message@,
    {
        self.message.as_str()
    }
}

impl Clone for PipelineErr {
    fn clone(&self) -> (e: Self)
        ensures
            e == *self,
    {
        PipelineErr { message: self.message.clone() }
    }
}

/// What the host's compilation collaborator reports for one registered
/// pipeline: built, or failed with a diagnostic.
#[derive(Debug)]
pub enum PipelineBuildOutcome {
    Built,
    Failed(PipelineErr),
}

/// The ordered record of every pipeline configuration registered so far.
/// A pipeline's key is its position in this record, so keys are stable
/// and count up from zero.
pub struct PipelineStore {
    pub configs: Vec<PipelineConfig>,
}

impl PipelineStore {
    /// An empty store: nothing registered, the next key is zero.
    pub fn new() -> (store: PipelineStore)
        ensures
            store.configs@.len() == 0,
    {
        PipelineStore { configs: Vec::new() }
    }

    /// Register a pipeline configuration and hand out its key: the
    /// position the configuration now occupies in the record.
    pub fn insert(&mut self, config: PipelineConfig) -> (key: usize)
        ensures
            key == old(self).configs@.len(),
            final(self).configs@ == old(self).configs@.push(config),
    {
        let key = self.configs.len();
        self.configs.push(config);
        key
    }

    /// Look a registered configuration up by its key.
    pub fn get(&self, key: usize) -> (config: &PipelineConfig)
        requires
            key < self.configs@.len(),
        ensures
            *config == self.configs@[key as int],
    {
        &self.configs[key]
    }
}

} // verus!
