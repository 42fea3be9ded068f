//! Owned handles to nodes of the processing graph, and the declarations a
//! filter node is created with: its upstream dependencies, concurrency mode
//! and caching hints.

use crate::vs::{VSCacheMode, VSFilterDependency, VSFilterMode, VSMediaType, VSRequestPattern};
use vstd::prelude::*;

verus! {

/// The concurrency contract a filter commits to for its lifetime.
pub type FilterMode = VSFilterMode;

/// How the output of a node is cached.
pub type CacheMode = VSCacheMode;

/// How frames of an upstream node will be requested: a caching hint.
pub type RequestPattern = VSRequestPattern;

/// One upstream dependency of a filter node.
pub type FilterDependency = VSFilterDependency;

/// Whether a node produces video or audio.
pub type MediaType = VSMediaType;

/// An owned reference to a video node held by the core.
#[derive(Debug)]
pub struct VideoNode {
    id: u64,
}

impl View for VideoNode {
    type V = int;

    closed spec fn view(&self) -> int {
        self.id as int
    }
}

impl VideoNode {
    /// The id of the node object this handle names.
    pub fn id(&self) -> (r: u64)
        ensures
            r == self@,
    {
        self.id
    }

    pub(crate) fn from_id(id: u64) -> (r: VideoNode)
        ensures
            r@ == id,
    {
        VideoNode { id }
    }
}

/// An owned reference to an audio node held by the core.
#[derive(Debug)]
pub struct AudioNode {
    id: u64,
}

impl View for AudioNode {
    type V = int;

    closed spec fn view(&self) -> int {
        self.id as int
    }
}

impl AudioNode {
    /// The id of the node object this handle names.
    pub fn id(&self) -> (r: u64)
        ensures
            r == self@,
    {
        self.id
    }

    pub(crate) fn from_id(id: u64) -> (r: AudioNode)
        ensures
            r@ == id,
    {
        AudioNode { id }
    }
}

/// The immutable, construction-time list of a filter's upstream
/// dependencies. Its length always fits the host's index width.
#[derive(Debug, Clone)]
pub struct Dependencies {
    deps: Vec<FilterDependency>,
}

impl View for Dependencies {
    type V = Seq<FilterDependency>;

    closed spec fn view(&self) -> Seq<FilterDependency> {
        self.deps@
    }
}

impl Dependencies {
    /// Wraps a dependency list, refusing one longer than the host's index
    /// width allows.
    pub fn new(deps: Vec<FilterDependency>) -> (r: Option<Dependencies>)
        ensures
            deps@.len() <= i32::MAX ==> (r matches Some(d) && d@ == deps@),
            deps@.len() > i32::MAX ==> r is None,
    {
        if deps.len() <= i32::MAX as usize {
            Some(Dependencies { deps })
        } else {
            None
        }
    }

    /// Number of dependencies.
    pub fn len(&self) -> (r: usize)
        ensures
            r == self@.len(),
    {
        self.deps.len()
    }

    /// The dependency at `i`.
    pub fn get(&self, i: usize) -> (r: FilterDependency)
        requires
            i < self@.len(),
        ensures
            r == self@[i as int],
    {
        self.deps[i]
    }

    /// A copy of the dependency list.
    pub fn to_vec(&self) -> (r: Vec<FilterDependency>)
        ensures
            r@ == self@,
    {
        vstd::slice::slice_to_vec(self.deps.as_slice())
    }
}

} // verus!
