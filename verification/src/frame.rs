//! Owned handles to host-owned frames. A handle names one reference to a
//! reference-counted object held by the core; it is created, cloned and
//! released only through the core, so that every reference is accounted
//! for. The view of a handle is the object id it names.

use vstd::prelude::*;

verus! {

/// An owned reference to a video frame held by the core.
#[derive(Debug)]
pub struct VideoFrame {
    id: u64,
}

impl View for VideoFrame {
    type V = int;

    closed spec fn view(&self) -> int {
        self.id as int
    }
}

impl VideoFrame {
    /// The id of the frame object this handle names.
    pub fn id(&self) -> (r: u64)
        ensures
            r == self@,
    {
        self.id
    }

    pub(crate) fn from_id(id: u64) -> (r: VideoFrame)
        ensures
            r@ == id,
    {
        VideoFrame { id }
    }
}

/// An owned reference to an audio frame held by the core.
#[derive(Debug)]
pub struct AudioFrame {
    id: u64,
}

impl View for AudioFrame {
    type V = int;

    closed spec fn view(&self) -> int {
        self.id as int
    }
}

impl AudioFrame {
    /// The id of the frame object this handle names.
    pub fn id(&self) -> (r: u64)
        ensures
            r == self@,
    {
        self.id
    }

    pub(crate) fn from_id(id: u64) -> (r: AudioFrame)
        ensures
            r@ == id,
    {
        AudioFrame { id }
    }
}

/// The printable name of a format, filled in by the core.
#[derive(Debug, Clone)]
pub struct FormatName {
    name: String,
}

impl View for FormatName {
    type V = Seq<char>;

    closed spec fn view(&self) -> Seq<char> {
        self.name@
    }
}

impl FormatName {
    /// An empty name, to be filled by the core.
    pub fn new() -> (r: FormatName)
        ensures
            r@.len() == 0,
    {
        FormatName { name: String::new() }
    }

    pub(crate) fn from_string(name: String) -> (r: FormatName)
        ensures
            r@ == name@,
    {
        FormatName { name }
    }

    /// The name as a string slice.
    pub fn as_str(&self) -> (r: &str)
        ensures
            r@ == self@,
    {
        self.name.as_str()
    }
}

} // verus!
