//! Assembling a render pipeline: which parts it needs before it can be built, and the
//! bind group layout entry of a uniform buffer.

use vstd::prelude::*;

verus! {

/// A part missing from a render pipeline that is asked to build.
#[derive(Clone, Copy, Debug, PartialEq, Eq, Structural)]
pub enum PipelineError {
    MissingLayout,
    MissingVertexShader,
    MissingFragmentShader,
}

/// Which parts have been handed to a pipeline builder so far.
#[derive(Clone, Copy, Debug, PartialEq, Eq, Structural)]
pub struct PipelineParts {
    pub has_layout: bool,
    pub has_vertex_shader: bool,
    pub has_fragment_shader: bool,
}

impl PipelineParts {
    /// A pipeline can be built once it has a layout, a vertex shader and a fragment
    /// shader. Otherwise the first missing part is reported, in that order.
    pub fn check(&self) -> (r: Result<(), PipelineError>)
        ensures
            r is Ok <==> (self.has_layout && self.has_vertex_shader && self.has_fragment_shader),
            r == Err::<(), PipelineError>(PipelineError::MissingLayout) <==> !self.has_layout,
            r == Err::<(), PipelineError>(PipelineError::MissingVertexShader) <==> (self.has_layout
                && !self.has_vertex_shader),
            r == Err::<(), PipelineError>(PipelineError::MissingFragmentShader) <==> (self.has_layout
                && self.has_vertex_shader && !self.has_fragment_shader),
    {
        if !self.has_layout {
            Err(PipelineError::MissingLayout)
        } else if !self.has_vertex_shader {
            Err(PipelineError::MissingVertexShader)
        } else if !self.has_fragment_shader {
            Err(PipelineError::MissingFragmentShader)
        } else {
            Ok(())
        }
    }
}

/// The shader stages that can see a binding.
#[derive(Clone, Copy, Debug, PartialEq, Eq, Structural)]
pub struct ShaderStages {
    pub vertex: bool,
    pub fragment: bool,
}

/// The binding slot that a uniform buffer takes in its own bind group.
pub const UNIFORM_BINDING: u32 = 0;

/// The single entry of a uniform buffer's bind group layout.
#[derive(Clone, Copy, Debug, PartialEq, Eq, Structural)]
pub struct UniformLayoutEntry {
    pub binding: u32,
    pub visibility: ShaderStages,
    pub has_dynamic_offset: bool,
}

/// Layout helpers shared by every uniform buffer.
#[derive(Clone, Copy, Debug)]
pub struct UniformBufferUtils {}

impl UniformBufferUtils {
    /// The layout entry of a uniform buffer seen by the stages `visibility`: one
    /// buffer at [`UNIFORM_BINDING`], read at a fixed offset.
    pub fn layout_entry(visibility: ShaderStages) -> (e: UniformLayoutEntry)
        ensures
            e.binding == UNIFORM_BINDING,
            e.visibility == visibility,
            !e.has_dynamic_offset,
    {
        UniformLayoutEntry { binding: UNIFORM_BINDING, visibility, has_dynamic_offset: false }
    }
}

} // verus!
