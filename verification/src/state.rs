//! The engine's state: the context, the pipeline description, the vertex
//! buffer's contents, the uniform regions and the camera matrices.

use vstd::prelude::*;
use crate::context::{InitWgpu, PhysicalSize, Resize, SurfaceConfiguration};
use crate::image::is_memory_image;
use crate::light::Light;
use crate::matrix::Mat4;
use crate::pipeline::{pipeline_for, DepthFormat, IndexFormat, Inputs, PipelineDescriptor};
use crate::scheduler::Event;
use crate::single::{ONE, ZERO};
use crate::uniform::{
    holds_fragment_uniforms, holds_light_uniforms, holds_vertex_uniforms, RegionKind,
    ResourceBindingSet,
};
use crate::vertex::{index_buffer_contents, vertex_buffer_contents, vertex_words, Vertex};

verus! {

/// The extent of a texture.
#[derive(Clone, Copy, Debug, PartialEq, Eq, Structural)]
pub struct Extent3d {
    pub width: u32,
    pub height: u32,
    pub depth_or_array_layers: u32,
}

/// One command of a frame's render pass.
#[derive(Clone, Copy, Debug, PartialEq, Eq, Structural)]
pub enum PassCommand {
    /// Binds the graphics pipeline.
    SetPipeline,
    /// Binds the resource set at the given index.
    SetBindGroup { index: u32 },
    /// Binds the whole vertex buffer at the given slot.
    SetVertexBuffer { slot: u32 },
    /// Binds the whole index buffer, read in the given format.
    SetIndexBuffer { format: IndexFormat },
    /// Draws the vertices `0..vertices` in buffer order, `instances` times.
    Draw { vertices: u32, instances: u32 },
    /// Draws the indices `0..indices` of the index buffer, `instances`
    /// times.
    DrawIndexed { indices: u32, instances: u32 },
}

/// What is recorded for one frame: the depth buffer to create, the values
/// that the colour target and the depth buffer are cleared to when the pass
/// begins, and the commands of the pass in order.
#[derive(Debug)]
pub struct FramePlan {
    pub depth_size: Extent3d,
    pub depth_format: DepthFormat,
    /// Red, green, blue and alpha as single-precision patterns.
    pub clear_color: [u32; 4],
    /// The depth as a single-precision pattern.
    pub clear_depth: u32,
    pub commands: Vec<PassCommand>,
}

/// The engine's state.
pub struct State {
    pub init: InitWgpu,
    pub pipeline: PipelineDescriptor,
    /// The contents of the vertex buffer.
    pub vertex_buffer: Vec<u8>,
    /// The contents of the index buffer, where one is configured.
    pub index_buffer: Option<Vec<u8>>,
    /// The number of indices, where an index buffer is configured.
    pub num_indices: Option<u32>,
    pub uniform_bind_group: ResourceBindingSet,
    pub view_mat: Mat4,
    pub project_mat: Mat4,
    pub num_vertices: u32,
}

/// The commands of a frame's pass over a buffer of `num_vertices` vertices
/// and, where there is an index buffer, `num_indices` 32-bit indices: the
/// pipeline is bound, then the resource set, then the vertex buffer; then a
/// single draw call follows, over all indices if there is an index buffer,
/// which is bound first, and over all vertices if not.
pub open spec fn pass_commands(num_vertices: u32, num_indices: Option<u32>) -> Seq<PassCommand> {
    match num_indices {
        Some(indices) => seq![
            PassCommand::SetPipeline,
            PassCommand::SetBindGroup { index: 0 },
            PassCommand::SetVertexBuffer { slot: 0 },
            PassCommand::SetIndexBuffer { format: IndexFormat::Uint32 },
            PassCommand::DrawIndexed { indices, instances: 1 },
        ],
        None => seq![
            PassCommand::SetPipeline,
            PassCommand::SetBindGroup { index: 0 },
            PassCommand::SetVertexBuffer { slot: 0 },
            PassCommand::Draw { vertices: num_vertices, instances: 1 },
        ],
    }
}

/// The depth buffer is as large as the configured surface, in one layer.
pub open spec fn depth_size_for(config: SurfaceConfiguration) -> Extent3d {
    Extent3d { width: config.width, height: config.height, depth_or_array_layers: 1 }
}

impl State {
    /// `self` is `before` after it took the drawable size `size`: the context
    /// has the size, the configuration has its width and height and is
    /// otherwise that of `before`, the projection is what `project` gave for
    /// the width and height, and everything else is as in `before`.
    pub open spec fn resized_from<P: Fn(u32, u32) -> Mat4>(
        &self,
        before: &State,
        size: PhysicalSize,
        project: P,
    ) -> bool {
        &&& self.init.spec_size() == size
        &&& self.init.spec_config() == (SurfaceConfiguration {
            width: size.width,
            height: size.height,
            ..before.init.spec_config()
        })
        &&& call_ensures(project, (size.width, size.height), self.project_mat)
        &&& self.pipeline == before.pipeline
        &&& self.vertex_buffer == before.vertex_buffer
        &&& self.index_buffer == before.index_buffer
        &&& self.num_indices == before.num_indices
        &&& self.uniform_bind_group == before.uniform_bind_group
        &&& self.view_mat == before.view_mat
        &&& self.num_vertices == before.num_vertices
    }

    /// `plan` is the plan of a frame in this state: a depth buffer of the
    /// surface's size, the colour target cleared to opaque black and the
    /// depth buffer to the far value 1.0, and the pass's commands.
    pub open spec fn plans(&self, plan: &FramePlan) -> bool {
        &&& plan.depth_size == depth_size_for(self.init.spec_config())
        &&& plan.depth_format == DepthFormat::Depth24Plus
        &&& plan.clear_color@ == seq![ZERO, ZERO, ZERO, ONE]
        &&& plan.clear_depth == ONE
        &&& plan.commands@ == pass_commands(self.num_vertices, self.num_indices)
    }

    /// Sets the engine up on a context: describes the pipeline, lays the
    /// vertices out as buffer contents, creates the three uniform regions,
    /// and writes those that stay the same from frame to frame. Light and eye
    /// both stand at the camera's position. The projection is computed for
    /// the surface's width and height; the vertex region is left zeroed for
    /// the first `update`.
    ///
    /// A draw call counts in 32 bits, so there can be no more vertices, and
    /// no more indices, than that.
    pub fn new<P: Fn(u32, u32) -> Mat4>(
        init: InitWgpu,
        inputs: Inputs,
        vertex_data: &Vec<Vertex>,
        index_data: Option<&Vec<u32>>,
        light_data: Light,
        camera_position: [u32; 3],
        view_mat: Mat4,
        project: &P,
    ) -> (state: Self)
        requires
            vertex_data.len() <= u32::MAX,
            index_data is Some ==> index_data.unwrap().len() <= u32::MAX,
            call_requires(*project, (init.spec_config().width, init.spec_config().height)),
        ensures
            state.init == init,
            state.pipeline == pipeline_for(init.spec_config().format, Vertex::spec_desc(), inputs),
            is_memory_image(state.vertex_buffer@, vertex_words(vertex_data@)),
            state.num_vertices == vertex_data.len(),
            match index_data {
                Some(indices) => {
                    &&& state.num_indices == Some(indices.len() as u32)
                    &&& state.index_buffer is Some
                    &&& is_memory_image(state.index_buffer.unwrap()@, indices@)
                },
                None => state.num_indices is None && state.index_buffer is None,
            },
            state.uniform_bind_group.vertex@ == Seq::new(192, |i: int| 0u8),
            holds_fragment_uniforms(
                Seq::new(32, |i: int| 0u8),
                state.uniform_bind_group.fragment@,
                camera_position,
                camera_position,
            ),
            holds_light_uniforms(state.uniform_bind_group.light@, light_data),
            state.view_mat == view_mat,
            call_ensures(
                *project,
                (init.spec_config().width, init.spec_config().height),
                state.project_mat,
            ),
    {
        let config: SurfaceConfiguration = init.config();
        let project_mat: Mat4 = project(config.width, config.height);
        let mut uniform_bind_group = ResourceBindingSet::allocate();
        assert(uniform_bind_group.vertex@ == uniform_bind_group.bytes_of(RegionKind::Vertex));
        assert(uniform_bind_group.fragment@ == uniform_bind_group.bytes_of(RegionKind::Fragment));
        uniform_bind_group.write_fragment_uniforms(&camera_position, &camera_position);
        uniform_bind_group.write_light_uniforms(&light_data);
        let pipeline = PipelineDescriptor::build(&config, Vertex::desc(), inputs);
        let vertex_buffer: Vec<u8> = vertex_buffer_contents(vertex_data);
        let (index_buffer, num_indices): (Option<Vec<u8>>, Option<u32>) = match index_data {
            Some(indices) => (Some(index_buffer_contents(indices)), Some(indices.len() as u32)),
            None => (None, None),
        };
        State {
            init,
            pipeline,
            vertex_buffer,
            index_buffer,
            num_indices,
            uniform_bind_group,
            view_mat,
            project_mat,
            num_vertices: vertex_data.len() as u32,
        }
    }

    /// Takes a new pixel size. A size with a zero dimension changes nothing.
    /// For any other size the context takes it, the projection is computed
    /// anew for the new width and height, and the surface is to be
    /// configured.
    pub fn resize<P: Fn(u32, u32) -> Mat4>(&mut self, new_size: PhysicalSize, project: &P) -> (r:
        Resize)
        requires
            new_size.spec_is_drawable() ==> call_requires(
                *project,
                (new_size.width, new_size.height),
            ),
        ensures
            !new_size.spec_is_drawable() ==> r == Resize::Ignored && *final(self) == *old(self),
            new_size.spec_is_drawable() ==> r == Resize::Reconfigure && final(self).resized_from(
                old(self),
                new_size,
                *project,
            ),
    {
        match self.init.resize(new_size) {
            Resize::Reconfigure => {
                self.project_mat = project(new_size.width, new_size.height);
                Resize::Reconfigure
            },
            Resize::Ignored => Resize::Ignored,
        }
    }

    /// Offers an event to the engine before the scheduler sees it. The engine
    /// handles none, and nothing changes.
    pub fn input(&mut self, event: &Event) -> (handled: bool)
        ensures
            !handled,
            *final(self) == *old(self),
    {
        false
    }

    /// Rewrites the per-frame uniforms: the model matrix, the view-projection
    /// matrix and the normal matrix go to bytes 0, 64 and 128 of the vertex
    /// region. Nothing else changes.
    pub fn update(&mut self, model_mat: &Mat4, view_project_mat: &Mat4, normal_mat: &Mat4)
        ensures
            holds_vertex_uniforms(
                final(self).uniform_bind_group.vertex@,
                *model_mat,
                *view_project_mat,
                *normal_mat,
            ),
            final(self).uniform_bind_group.fragment == old(self).uniform_bind_group.fragment,
            final(self).uniform_bind_group.light == old(self).uniform_bind_group.light,
            final(self).init == old(self).init,
            final(self).pipeline == old(self).pipeline,
            final(self).vertex_buffer == old(self).vertex_buffer,
            final(self).index_buffer == old(self).index_buffer,
            final(self).num_indices == old(self).num_indices,
            final(self).view_mat == old(self).view_mat,
            final(self).project_mat == old(self).project_mat,
            final(self).num_vertices == old(self).num_vertices,
    {
        self.uniform_bind_group.write_vertex_uniforms(model_mat, view_project_mat, normal_mat);
    }

    /// Plans the frame to record in this state. The depth buffer has the
    /// current size of the surface.
    pub fn render(&self) -> (plan: FramePlan)
        ensures
            self.plans(&plan),
            plan.depth_size.width == self.init.spec_size().width,
            plan.depth_size.height == self.init.spec_size().height,
            plan.depth_size.width > 0,
            plan.depth_size.height > 0,
    {
        let config: SurfaceConfiguration = self.init.config();
        let mut commands: Vec<PassCommand> = Vec::new();
        commands.push(PassCommand::SetPipeline);
        commands.push(PassCommand::SetBindGroup { index: 0 });
        commands.push(PassCommand::SetVertexBuffer { slot: 0 });
        match self.num_indices {
            Some(indices) => {
                commands.push(PassCommand::SetIndexBuffer { format: IndexFormat::Uint32 });
                commands.push(PassCommand::DrawIndexed { indices, instances: 1 });
            },
            None => {
                commands.push(PassCommand::Draw { vertices: self.num_vertices, instances: 1 });
            },
        }
        let plan = FramePlan {
            depth_size: Extent3d {
                width: config.width,
                height: config.height,
                depth_or_array_layers: 1,
            },
            depth_format: DepthFormat::Depth24Plus,
            clear_color: [ZERO, ZERO, ZERO, ONE],
            clear_depth: ONE,
            commands,
        };
        assert(plan.clear_color@ =~= seq![ZERO, ZERO, ZERO, ONE]);
        assert(plan.commands@ =~= pass_commands(self.num_vertices, self.num_indices));
        plan
    }
}

} // verus!
