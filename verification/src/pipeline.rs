//! The description of the graphics pipeline: the fixed-function state that is
//! compiled, together with the shader, into the pipeline object.

use vstd::prelude::*;
use crate::context::SurfaceConfiguration;
use crate::vertex::VertexBufferLayout;

verus! {

/// How vertices are assembled into primitives.
#[derive(Clone, Copy, Debug, PartialEq, Eq, Structural)]
pub enum PrimitiveTopology {
    TriangleList,
    TriangleStrip,
}

/// The width of an index.
#[derive(Clone, Copy, Debug, PartialEq, Eq, Structural)]
pub enum IndexFormat {
    Uint16,
    Uint32,
}

/// The format of the depth buffer.
#[derive(Clone, Copy, Debug, PartialEq, Eq, Structural)]
pub enum DepthFormat {
    Depth24Plus,
}

/// The comparison that a fragment's depth must pass.
#[derive(Clone, Copy, Debug, PartialEq, Eq, Structural)]
pub enum CompareFunction {
    Less,
    LessEqual,
}

/// How a fragment's colour is combined with the target's.
#[derive(Clone, Copy, Debug, PartialEq, Eq, Structural)]
pub enum Blend {
    /// The fragment's colour and alpha replace the target's.
    Replace,
}

/// What the caller chooses about the pipeline.
#[derive(Clone, Copy, Debug, PartialEq, Eq, Structural)]
pub struct Inputs {
    pub topology: PrimitiveTopology,
    pub strip_index_format: Option<IndexFormat>,
}

/// The graphics pipeline's fixed-function state.
#[derive(Clone, Copy, Debug)]
pub struct PipelineDescriptor {
    pub vertex_layout: VertexBufferLayout,
    /// The format of the colour target: that of the surface.
    pub color_format: usize,
    pub blend: Blend,
    pub topology: PrimitiveTopology,
    pub strip_index_format: Option<IndexFormat>,
    pub depth_format: DepthFormat,
    pub depth_write_enabled: bool,
    pub depth_compare: CompareFunction,
}

/// The inputs that a primitive type named on the command line selects.
pub open spec fn inputs_for(primitive_type: Option<Seq<char>>) -> Inputs {
    if primitive_type == Some("triangle-strip"@) {
        Inputs {
            topology: PrimitiveTopology::TriangleStrip,
            strip_index_format: Some(IndexFormat::Uint32),
        }
    } else {
        Inputs { topology: PrimitiveTopology::TriangleList, strip_index_format: None }
    }
}

/// The pipeline for a surface of format `color_format`, vertices laid out as
/// `vertex_layout`, and the caller's `inputs`: colours replace, depth is
/// written and passes when less or equal, in a 24-bit depth buffer.
pub open spec fn pipeline_for(
    color_format: usize,
    vertex_layout: VertexBufferLayout,
    inputs: Inputs,
) -> PipelineDescriptor {
    PipelineDescriptor {
        vertex_layout,
        color_format,
        blend: Blend::Replace,
        topology: inputs.topology,
        strip_index_format: inputs.strip_index_format,
        depth_format: DepthFormat::Depth24Plus,
        depth_write_enabled: true,
        depth_compare: CompareFunction::LessEqual,
    }
}

impl Inputs {
    /// An index format is chosen only for a strip topology.
    pub open spec fn is_consistent(self) -> bool {
        self.strip_index_format is Some ==> self.topology == PrimitiveTopology::TriangleStrip
    }

    /// Triangle lists without an index format.
    pub fn triangle_list() -> (inputs: Self)
        ensures
            inputs == inputs_for(None),
    {
        Inputs { topology: PrimitiveTopology::TriangleList, strip_index_format: None }
    }

    /// The inputs for a primitive type named on the command line:
    /// `triangle-strip` selects strips with 32-bit indices; any other name,
    /// or none, selects triangle lists without an index format.
    pub fn from_argument(primitive_type: Option<&str>) -> (inputs: Self)
        ensures
            inputs == inputs_for(
                match primitive_type {
                    Some(name) => Some(name@),
                    None => None,
                },
            ),
            inputs.is_consistent(),
    {
        match primitive_type {
            Some(name) => {
                let given: String = name.to_owned();
                let strip: String = "triangle-strip".to_owned();
                if given == strip {
                    Inputs {
                        topology: PrimitiveTopology::TriangleStrip,
                        strip_index_format: Some(IndexFormat::Uint32),
                    }
                } else {
                    Inputs::triangle_list()
                }
            },
            None => Inputs::triangle_list(),
        }
    }
}

impl PipelineDescriptor {
    /// Describes the pipeline for the configured surface.
    pub fn build(
        config: &SurfaceConfiguration,
        vertex_layout: VertexBufferLayout,
        inputs: Inputs,
    ) -> (pipeline: Self)
        ensures
            pipeline == pipeline_for(config.format, vertex_layout, inputs),
    {
        PipelineDescriptor {
            vertex_layout,
            color_format: config.format,
            blend: Blend::Replace,
            topology: inputs.topology,
            strip_index_format: inputs.strip_index_format,
            depth_format: DepthFormat::Depth24Plus,
            depth_write_enabled: true,
            depth_compare: CompareFunction::LessEqual,
        }
    }
}

} // verus!
