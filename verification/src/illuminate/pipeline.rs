//! What an illuminate pipeline is created with.
use vstd::prelude::*;

verus! {

/// What a pipeline is created with.
#[derive(Debug, Clone, Copy)]
pub struct PipelineDescriptor<'a> {
    pub label: Option<&'a str>,
}

impl<'a> PipelineDescriptor<'a> {
    pub fn new(label: Option<&'a str>) -> (r: Self)
        ensures
            r.label == label,
    {
        PipelineDescriptor { label }
    }
}

} // verus!
