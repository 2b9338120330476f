//! The pipeline builder: fixed descriptions for one triangle-list draw
//! call, an abstract GPU device to materialize them, and the `RenderTask`
//! that owns the resulting handles.
//!
//! The device is an external collaborator: creating or rejecting a render
//! pass, layout or pipeline is its decision, so nothing is assumed of its
//! answers. What is proved is what the builder hands it — the exact
//! descriptions — and how the returned handles are guarded: each sits in an
//! `InUse` cell, is present after a successful build, and is released
//! exactly once, pipeline first, then render pass, then layout.

use crate::shader::Clock;
use crate::shader::LookupError;
use crate::shader::Shader;
use crate::shader::ShaderError;
use crate::shader::ShaderManager;
use crate::shader::ShaderType;
use crate::shader::SourceFiles;
use crate::shader::SpirvCompiler;
use crate::shader::fragment_path;
use crate::shader::vertex_path;
use crate::utils::InUse;
use vstd::prelude::*;

verus! {

/// A surface color format the pipeline renders into.
#[derive(Debug, PartialEq, Eq, Clone, Copy)]
pub enum Format {
    Rgba8Srgb,
    Bgra8Srgb,
    Rgba8Unorm,
    Bgra8Unorm,
}

/// What happens to an attachment's contents when a pass begins.
#[derive(Debug, PartialEq, Eq, Clone, Copy)]
pub enum LoadOp {
    Clear,
    Load,
    DontCare,
}

/// What happens to an attachment's contents when a pass ends.
#[derive(Debug, PartialEq, Eq, Clone, Copy)]
pub enum StoreOp {
    Store,
    DontCare,
}

/// A load/store pair for one attachment aspect.
#[derive(Debug, PartialEq, Eq, Clone, Copy)]
pub struct AttachmentOps {
    pub load: LoadOp,
    pub store: StoreOp,
}

/// An image layout an attachment transitions between.
#[derive(Debug, PartialEq, Eq, Clone, Copy)]
pub enum Layout {
    Undefined,
    ColorAttachmentOptimal,
    Present,
}

/// One color attachment of a render pass.
#[derive(Debug, PartialEq, Eq, Clone, Copy)]
pub struct Attachment {
    pub format: Option<Format>,
    pub samples: u8,
    pub ops: AttachmentOps,
    pub stencil_ops: AttachmentOps,
    pub layout_from: Layout,
    pub layout_to: Layout,
}

/// A subpass's reference to an attachment, by index, in a layout.
#[derive(Debug, PartialEq, Eq, Clone, Copy)]
pub struct AttachmentRef {
    pub attachment: usize,
    pub layout: Layout,
}

/// One subpass: which attachments it reads and writes.
#[derive(Debug, PartialEq, Eq, Clone)]
pub struct SubpassDesc {
    pub colors: Vec<AttachmentRef>,
    pub depth_stencil: Option<AttachmentRef>,
    pub inputs: Vec<AttachmentRef>,
    pub resolves: Vec<AttachmentRef>,
    pub preserves: Vec<usize>,
}

/// A producer or consumer side of a subpass dependency.
#[derive(Debug, PartialEq, Eq, Clone, Copy)]
pub enum SubpassRef {
    External,
    Pass(usize),
}

/// A pipeline stage a dependency synchronizes at.
#[derive(Debug, PartialEq, Eq, Clone, Copy)]
pub enum PipelineStage {
    ColorAttachmentOutput,
    BottomOfPipe,
}

/// Which color-attachment accesses a dependency guards.
#[derive(Debug, PartialEq, Eq, Clone, Copy)]
pub struct AccessFlags {
    pub color_read: bool,
    pub color_write: bool,
}

/// An execution dependency between two subpasses.
#[derive(Debug, PartialEq, Eq, Clone, Copy)]
pub struct SubpassDependency {
    pub from: SubpassRef,
    pub to: SubpassRef,
    pub stage_from: PipelineStage,
    pub stage_to: PipelineStage,
    pub access_from: AccessFlags,
    pub access_to: AccessFlags,
}

/// The primitive topology a pipeline assembles.
#[derive(Debug, PartialEq, Eq, Clone, Copy)]
pub enum Primitive {
    TriangleList,
    TriangleStrip,
    LineList,
    PointList,
}

/// How the rasterizer fills primitives.
#[derive(Debug, PartialEq, Eq, Clone, Copy)]
pub enum Rasterizer {
    Fill,
    Line,
}

/// Which color channels a blend target writes.
#[derive(Debug, PartialEq, Eq, Clone, Copy)]
pub enum ColorMask {
    All,
    Empty,
}

/// How a blend target mixes new and existing color.
#[derive(Debug, PartialEq, Eq, Clone, Copy)]
pub enum BlendState {
    Alpha,
    Off,
}

/// One color-blend target of a pipeline.
#[derive(Debug, PartialEq, Eq, Clone, Copy)]
pub struct ColorBlendTarget {
    pub mask: ColorMask,
    pub blend: BlendState,
}

/// Everything the device needs to materialize the graphics pipeline, short
/// of the render pass and layout handles it also receives.
#[derive(Debug, PartialEq, Eq, Clone)]
pub struct GraphicsPipelineDesc {
    pub vertex_entry: String,
    pub fragment_entry: String,
    pub primitive: Primitive,
    pub rasterizer: Rasterizer,
    pub blend_targets: Vec<ColorBlendTarget>,
    pub subpass_index: usize,
}

/// The device rejected a description; its diagnostic text is kept.
#[derive(Debug, PartialEq, Eq, Clone)]
pub struct DeviceError {
    pub message: String,
}

/// Why a build aborted: the registry missed the name, a shader could not be
/// produced, or the device rejected one of the four creations.
#[derive(Debug, PartialEq, Eq, Clone)]
pub enum BuildError {
    Lookup(LookupError),
    Shader(ShaderError),
    RenderPass(DeviceError),
    PipelineLayout(DeviceError),
    ShaderModule(DeviceError),
    Pipeline(DeviceError),
}

/// The GPU device, an external collaborator: it materializes and releases
/// render passes, pipeline layouts, shader modules and pipelines. Every
/// creation may fail and nothing is assumed of its answers; the render-loop
/// driver supplies the implementation.
pub trait GpuDevice {
    type RenderPass;

    type PipelineLayout;

    type ShaderModule;

    type Pipeline;

    fn create_render_pass(
        &mut self,
        attachments: &Vec<Attachment>,
        subpasses: &Vec<SubpassDesc>,
        dependencies: &Vec<SubpassDependency>,
    ) -> Result<Self::RenderPass, DeviceError>;

    fn create_pipeline_layout(&mut self) -> Result<Self::PipelineLayout, DeviceError>;

    fn create_shader_module(&mut self, bytecode: &Vec<u8>) -> Result<
        Self::ShaderModule,
        DeviceError,
    >;

    fn create_graphics_pipeline(
        &mut self,
        desc: &GraphicsPipelineDesc,
        render_pass: &Self::RenderPass,
        layout: &Self::PipelineLayout,
        vertex_module: &Self::ShaderModule,
        fragment_module: &Self::ShaderModule,
    ) -> Result<Self::Pipeline, DeviceError>;

    fn destroy_graphics_pipeline(&mut self, pipeline: Self::Pipeline);

    fn destroy_shader_module(&mut self, module: Self::ShaderModule);

    fn destroy_render_pass(&mut self, render_pass: Self::RenderPass);

    fn destroy_pipeline_layout(&mut self, layout: Self::PipelineLayout);
}

/// The entry point both shader stages are invoked by.
pub open spec fn entry_name_spec() -> Seq<char> {
    "main"@
}

/// The entry point as a value, for the pipeline description.
pub fn entry_name() -> (s: String)
    ensures
        s@ == entry_name_spec(),
{
    "main".to_owned()
}

/// The single color attachment: the surface format, one sample, cleared on
/// load and stored on exit, stencil ignored, transitioning from undefined
/// to presentable.
pub fn color_attachment(format: Format) -> (a: Attachment)
    ensures
        a == (Attachment {
            format: Some(format),
            samples: 1u8,
            ops: AttachmentOps { load: LoadOp::Clear, store: StoreOp::Store },
            stencil_ops: AttachmentOps { load: LoadOp::DontCare, store: StoreOp::DontCare },
            layout_from: Layout::Undefined,
            layout_to: Layout::Present,
        }),
{
    Attachment {
        format: Some(format),
        samples: 1u8,
        ops: AttachmentOps { load: LoadOp::Clear, store: StoreOp::Store },
        stencil_ops: AttachmentOps { load: LoadOp::DontCare, store: StoreOp::DontCare },
        layout_from: Layout::Undefined,
        layout_to: Layout::Present,
    }
}

/// The single subpass: attachment 0 as its sole color output, no depth or
/// stencil, no input, resolve or preserve attachments.
pub fn triangle_subpass() -> (s: SubpassDesc)
    ensures
        s.colors@ == seq![AttachmentRef { attachment: 0usize, layout: Layout::ColorAttachmentOptimal }],
        s.depth_stencil is None,
        s.inputs@.len() == 0,
        s.resolves@.len() == 0,
        s.preserves@.len() == 0,
{
    let mut colors: Vec<AttachmentRef> = Vec::new();
    colors.push(AttachmentRef { attachment: 0usize, layout: Layout::ColorAttachmentOptimal });
    proof {
        assert(colors@ =~= seq![
            AttachmentRef { attachment: 0usize, layout: Layout::ColorAttachmentOptimal },
        ]);
    }
    SubpassDesc {
        colors,
        depth_stencil: None,
        inputs: Vec::new(),
        resolves: Vec::new(),
        preserves: Vec::new(),
    }
}

/// The single dependency: from the implicit external producer into subpass
/// 0, synchronized at color-attachment output, guarding color reads and
/// writes.
pub fn external_color_dependency() -> (d: SubpassDependency)
    ensures
        d == (SubpassDependency {
            from: SubpassRef::External,
            to: SubpassRef::Pass(0usize),
            stage_from: PipelineStage::ColorAttachmentOutput,
            stage_to: PipelineStage::ColorAttachmentOutput,
            access_from: AccessFlags { color_read: false, color_write: false },
            access_to: AccessFlags { color_read: true, color_write: true },
        }),
{
    SubpassDependency {
        from: SubpassRef::External,
        to: SubpassRef::Pass(0usize),
        stage_from: PipelineStage::ColorAttachmentOutput,
        stage_to: PipelineStage::ColorAttachmentOutput,
        access_from: AccessFlags { color_read: false, color_write: false },
        access_to: AccessFlags { color_read: true, color_write: true },
    }
}

/// The pipeline description: triangle list, solid fill, both stages entered
/// at the fixed entry point, one blend target writing every channel with
/// standard alpha blending, against subpass 0.
pub fn triangle_pipeline_desc() -> (d: GraphicsPipelineDesc)
    ensures
        d.vertex_entry@ == entry_name_spec(),
        d.fragment_entry@ == entry_name_spec(),
        d.primitive is TriangleList,
        d.rasterizer is Fill,
        d.blend_targets@ == seq![ColorBlendTarget { mask: ColorMask::All, blend: BlendState::Alpha }],
        d.subpass_index == 0,
{
    let mut blend_targets: Vec<ColorBlendTarget> = Vec::new();
    blend_targets.push(ColorBlendTarget { mask: ColorMask::All, blend: BlendState::Alpha });
    proof {
        assert(blend_targets@ =~= seq![
            ColorBlendTarget { mask: ColorMask::All, blend: BlendState::Alpha },
        ]);
    }
    GraphicsPipelineDesc {
        vertex_entry: entry_name(),
        fragment_entry: entry_name(),
        primitive: Primitive::TriangleList,
        rasterizer: Rasterizer::Fill,
        blend_targets,
        subpass_index: 0usize,
    }
}

/// The handles of one built pipeline, each guarded by a single-use cell,
/// plus the two cache entries that produced the bound shader modules.
#[verifier::reject_recursive_types(D)]
pub struct RenderTask<D: GpuDevice> {
    pub pipeline: InUse<D::Pipeline>,
    pub render_pass: InUse<D::RenderPass>,
    pub pipeline_layout: InUse<D::PipelineLayout>,
    pub vs: Shader,
    pub fs: Shader,
    pub format: Format,
}

impl<D: GpuDevice> RenderTask<D> {
    /// Builds the whole bundle: resolves both shader stages of the fixed
    /// pair name, asks the device for a render pass, an empty pipeline
    /// layout, the two shader modules and the graphics pipeline, in that
    /// order, and wraps each retained handle in a fresh cell. Aborts on the
    /// first failure without releasing anything, so no partially built
    /// bundle is exposed. The fixed name is registered, so a lookup failure
    /// can never be the outcome.
    pub fn new<F: SourceFiles, C: Clock, K: SpirvCompiler>(
        device: &mut D,
        format: Format,
        files: &mut F,
        clock: &mut C,
        compiler: &mut K,
    ) -> (r: Result<Self, BuildError>)
        ensures
            r matches Ok(t) ==> t.pipeline is Used && t.render_pass is Used
                && t.pipeline_layout is Used,
            r matches Ok(t) ==> t.format == format,
            r matches Ok(t) ==> t.vs@.kind is Vertex && t.vs@.path == vertex_path()
                && t.vs@.cache is Some,
            r matches Ok(t) ==> t.fs@.kind is Fragment && t.fs@.path == fragment_path()
                && t.fs@.cache is Some,
            r matches Err(e) ==> !(e is Lookup),
    {
        let mut attachments: Vec<Attachment> = Vec::new();
        attachments.push(color_attachment(format));
        let mut subpasses: Vec<SubpassDesc> = Vec::new();
        subpasses.push(triangle_subpass());
        let mut dependencies: Vec<SubpassDependency> = Vec::new();
        dependencies.push(external_color_dependency());

        let mut vs = match ShaderManager::from_name(
            "simple_triangle",
            ShaderType::Vertex,
            clock.now_ms(),
        ) {
            Ok(s) => s,
            Err(e) => {
                return Err(BuildError::Lookup(e));
            },
        };
        let mut fs = match ShaderManager::from_name(
            "simple_triangle",
            ShaderType::Fragment,
            clock.now_ms(),
        ) {
            Ok(s) => s,
            Err(e) => {
                return Err(BuildError::Lookup(e));
            },
        };

        let render_pass = match device.create_render_pass(
            &attachments,
            &subpasses,
            &dependencies,
        ) {
            Ok(rp) => rp,
            Err(e) => {
                return Err(BuildError::RenderPass(e));
            },
        };
        let pipeline_layout = match device.create_pipeline_layout() {
            Ok(l) => l,
            Err(e) => {
                return Err(BuildError::PipelineLayout(e));
            },
        };

        let vs_code = match vs.spirv(files, clock, compiler) {
            Ok(b) => b,
            Err(e) => {
                return Err(BuildError::Shader(e));
            },
        };
        let vs_module = match device.create_shader_module(&vs_code) {
            Ok(m) => m,
            Err(e) => {
                return Err(BuildError::ShaderModule(e));
            },
        };
        let fs_code = match fs.spirv(files, clock, compiler) {
            Ok(b) => b,
            Err(e) => {
                return Err(BuildError::Shader(e));
            },
        };
        let fs_module = match device.create_shader_module(&fs_code) {
            Ok(m) => m,
            Err(e) => {
                return Err(BuildError::ShaderModule(e));
            },
        };

        let desc = triangle_pipeline_desc();
        let pipeline = match device.create_graphics_pipeline(
            &desc,
            &render_pass,
            &pipeline_layout,
            &vs_module,
            &fs_module,
        ) {
            Ok(p) => p,
            Err(e) => {
                return Err(BuildError::Pipeline(e));
            },
        };
        Ok(
            RenderTask {
                pipeline: InUse::Used(pipeline),
                render_pass: InUse::Used(render_pass),
                pipeline_layout: InUse::Used(pipeline_layout),
                vs,
                fs,
                format,
            },
        )
    }

    /// Releases the bundle exactly once: takes the pipeline, then the
    /// render pass, then the layout — dependency order reversed — and hands
    /// each back to the device. A second release is a lifecycle bug and is
    /// rejected by the cells' contracts.
    pub fn destroy(&mut self, device: &mut D)
        requires
            old(self).pipeline is Used,
            old(self).render_pass is Used,
            old(self).pipeline_layout is Used,
        ensures
            final(self).pipeline is Released,
            final(self).render_pass is Released,
            final(self).pipeline_layout is Released,
            final(self).vs@ == old(self).vs@,
            final(self).fs@ == old(self).fs@,
            final(self).format == old(self).format,
    {
        let pipeline = self.pipeline.take();
        device.destroy_graphics_pipeline(pipeline);
        let render_pass = self.render_pass.take();
        device.destroy_render_pass(render_pass);
        let pipeline_layout = self.pipeline_layout.take();
        device.destroy_pipeline_layout(pipeline_layout);
    }

    /// A view of the held render pass; demands that it was not released.
    pub fn render_pass(&self) -> (r: &D::RenderPass)
        requires
            self.render_pass is Used,
        ensures
            *r == self.render_pass->Used_0,
    {
        self.render_pass.as_ref()
    }

    /// A view of the held pipeline layout; demands that it was not
    /// released.
    pub fn pipeline_layout(&self) -> (r: &D::PipelineLayout)
        requires
            self.pipeline_layout is Used,
        ensures
            *r == self.pipeline_layout->Used_0,
    {
        self.pipeline_layout.as_ref()
    }

    /// A view of the held pipeline; demands that it was not released.
    pub fn pipeline(&self) -> (r: &D::Pipeline)
        requires
            self.pipeline is Used,
        ensures
            *r == self.pipeline->Used_0,
    {
        self.pipeline.as_ref()
    }
}

} // verus!
