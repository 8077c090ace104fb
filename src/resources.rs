use crate::geometry::{index_data, index_seq, vertex_data, vertex_seq};
use crate::handles::{BufferHandle, ProgramHandle, ShaderHandle, TextureHandle};
use crate::scene::{
    attribute_at, attribute_count, texture_count, uniform_at, Attribute, Scene, Stage, Uniform,
    UNIFORM_COUNT,
};
use crate::texture::{pack_rgb, RgbSurface};
use vstd::prelude::*;

verus! {

/// A kind of GPU object.
#[derive(Clone, Copy, Debug, PartialEq, Eq, Structural)]
pub enum GpuObject {
    Shader,
    Program,
    Buffer,
    Texture,
}

/// Which geometry a buffer holds.
#[derive(Clone, Copy, Debug, PartialEq, Eq, Structural)]
pub enum BufferRole {
    /// Per-vertex data, bound as an array buffer.
    Vertices,
    /// The index list, bound as an element array buffer.
    Indices,
}

/// How a buffer will be used.
#[derive(Clone, Copy, Debug, PartialEq, Eq, Structural)]
pub enum Usage {
    /// Written once, drawn from many times.
    StaticDraw,
}

/// The data for a buffer.
#[derive(Debug)]
pub enum BufferData {
    /// Per-vertex numbers, each uploaded as a 32-bit float.
    Vertices(Vec<i8>),
    /// 16-bit vertex indices.
    Indices(Vec<u16>),
}

/// How a texture is sampled between and beyond its texels.
#[derive(Clone, Copy, Debug, PartialEq, Eq, Structural)]
pub enum Filter {
    /// Linear for both minification and magnification.
    Linear,
}

/// What a texture shows outside [0, 1].
#[derive(Clone, Copy, Debug, PartialEq, Eq, Structural)]
pub enum Wrap {
    /// Clamped to the edge on both axes.
    ClampToEdge,
}

/// The layout of uploaded texels.
#[derive(Clone, Copy, Debug, PartialEq, Eq, Structural)]
pub enum TexelFormat {
    /// Three unsigned bytes per texel, red, green, blue.
    Rgb8,
}

/// Why building a scene's GPU resources failed.
#[derive(Debug)]
pub enum BuildError {
    /// The GPU made no object of this kind; `text` is its error, where it
    /// gave one.
    ResourceCreation { object: GpuObject, text: Option<String> },
    /// The driver rejected the stage's source; `log` is its diagnostic.
    Compile { stage: Stage, log: String },
    /// The driver could not link the program; `log` is its diagnostic.
    Link { log: String },
    /// The linked program has no uniform of this name.
    MissingUniform(Uniform),
    /// The linked program has no vertex input of this name.
    MissingAttribute(Attribute),
    /// The stage's source file could not be read.
    ShaderUnreadable { stage: Stage, text: String },
    /// Texture `image`'s bitmap could not be read or decoded.
    ImageUnreadable { image: usize, text: String },
    /// Texture `image`'s bitmap could not be converted to 24-bit RGB.
    FormatConversion { image: usize, text: String },
    /// Texture `image` was converted, but its rows do not fit its buffer.
    ImageLayout { image: usize },
}

/// Where construction stands: the request it waits to have answered.
#[derive(Clone, Copy, Debug, PartialEq, Eq, Structural)]
pub enum Phase {
    ReadSource(Stage),
    CreateShader(Stage),
    CompileShader(Stage),
    CreateProgram,
    LinkProgram,
    LocateUniforms,
    LocateAttributes,
    CreateBuffer(BufferRole),
    UploadBuffer(BufferRole),
    LoadImage,
    CreateTexture,
    UploadTexture,
    Done,
    Failed,
}

/// The answer to a request, from the side that talks to the GPU and the disk.
pub enum Reply {
    /// A new object's number; 0 when none could be made.
    Created(u32),
    /// No object could be made; the GPU's error.
    NotCreated(String),
    /// The contents of a shader source file.
    Source(Vec<u8>),
    /// Whether a compile or a link succeeded, with the driver's log.
    Status { ok: bool, log: String },
    /// A uniform's or vertex input's location; negative when not found.
    Location(i32),
    /// The data was handed to the GPU.
    Uploaded,
    /// The bitmap, decoded and converted to 24-bit RGB.
    Image(RgbSurface),
    /// A file could not be read or decoded; the reason.
    Unreadable(String),
    /// The decoded bitmap could not be converted to 24-bit RGB; the reason.
    Unconvertible(String),
}

/// What the GPU side is asked to do next.
pub enum Request {
    /// Read the stage's source file, named by `Scene::shader_file`.
    ReadSource(Stage),
    /// Make a shader object of this stage.
    CreateShader(Stage),
    /// Hand `source` to `shader` and compile it.
    CompileShader { shader: ShaderHandle, stage: Stage, source: Vec<u8> },
    /// Make a program object.
    CreateProgram,
    /// Attach both shaders to `program` and link it.
    LinkProgram { program: ProgramHandle, vertex: ShaderHandle, fragment: ShaderHandle },
    /// Look up the uniform's location in `program`.
    UniformLocation { program: ProgramHandle, uniform: Uniform },
    /// Look up the vertex input's location in `program`.
    AttributeLocation { program: ProgramHandle, attribute: Attribute },
    /// Make a buffer object.
    CreateBuffer,
    /// Bind `buffer` for its role and upload all of `data` in one call.
    UploadBuffer { buffer: BufferHandle, role: BufferRole, usage: Usage, data: BufferData },
    /// Read texture `image`'s bitmap and convert it to 24-bit RGB.
    LoadImage { image: usize },
    /// Make a texture object.
    CreateTexture,
    /// Bind `texture`, set its filter and wrap, and upload `pixels`, laid out
    /// as `format`, as its mip level `level`.
    UploadTexture {
        texture: TextureHandle,
        width: u32,
        height: u32,
        pixels: Vec<u8>,
        level: i32,
        format: TexelFormat,
        filter: Filter,
        wrap: Wrap,
    },
    /// Construction is complete.
    Finished,
    /// Construction failed; nothing more is asked.
    Abandoned,
}

/// A texture decoded and packed, waiting for its upload.
pub struct PackedImage {
    pub width: u32,
    pub height: u32,
    pub pixels: Vec<u8>,
}

/// The mathematical state of a construction.
pub struct BuildState {
    pub scene: Scene,
    pub phase: Phase,
    pub vertex_shader: u32,
    pub fragment_shader: u32,
    pub program: u32,
    pub uniforms: Seq<i32>,
    pub attributes: Seq<i32>,
    pub vertex_buffer: u32,
    pub element_buffer: u32,
    pub textures: Seq<u32>,
    pub image: Option<(u32, u32, Seq<u8>)>,
    pub source: Option<Seq<u8>>,
}

/// The GPU resources of one scene being built, one request at a time.
pub struct Builder {
    pub scene: Scene,
    pub phase: Phase,
    pub vertex_shader: u32,
    pub fragment_shader: u32,
    pub program: u32,
    pub uniforms: Vec<i32>,
    pub attributes: Vec<i32>,
    pub vertex_buffer: u32,
    pub element_buffer: u32,
    pub textures: Vec<u32>,
    pub image: Option<PackedImage>,
    /// The source of the stage being made, between its reading and its
    /// compilation.
    pub source: Option<Vec<u8>>,
}

/// A scene's GPU resources, all made and all found.
pub struct Bundle {
    pub scene: Scene,
    pub program: ProgramHandle,
    pub vertex_buffer: BufferHandle,
    pub element_buffer: BufferHandle,
    pub textures: Vec<TextureHandle>,
    /// The locations of the scene's uniforms, in the order of `uniform_at`.
    pub uniforms: Vec<i32>,
    /// The locations of the scene's vertex inputs, in the order of `attribute_at`.
    pub attributes: Vec<i32>,
}

impl View for Builder {
    type V = BuildState;

    open spec fn view(&self) -> BuildState {
        BuildState {
            scene: self.scene,
            phase: self.phase,
            vertex_shader: self.vertex_shader,
            fragment_shader: self.fragment_shader,
            program: self.program,
            uniforms: self.uniforms@,
            attributes: self.attributes@,
            vertex_buffer: self.vertex_buffer,
            element_buffer: self.element_buffer,
            textures: self.textures@,
            image: match self.image {
                Some(i) => Some((i.width, i.height, i.pixels@)),
                None => None,
            },
            source: match self.source {
                Some(v) => Some(v@),
                None => None,
            },
        }
    }
}

impl Bundle {
    /// Every handle is a real object and every location was found.
    pub open spec fn wf(&self) -> bool {
        &&& self.program.0 != 0
        &&& self.vertex_buffer.0 != 0
        &&& self.element_buffer.0 != 0
        &&& self.uniforms@.len() == UNIFORM_COUNT
        &&& self.attributes@.len() == attribute_count(self.scene)
        &&& self.textures@.len() == texture_count(self.scene)
        &&& forall|k: int| 0 <= k < self.uniforms@.len() ==> #[trigger] self.uniforms@[k] >= 0
        &&& forall|k: int| 0 <= k < self.attributes@.len() ==> #[trigger] self.attributes@[k] >= 0
        &&& forall|k: int| 0 <= k < self.textures@.len() ==> (#[trigger] self.textures@[k]).0 != 0
    }
}

/// The state in which every construction starts.
pub open spec fn initial(scene: Scene) -> BuildState {
    BuildState {
        scene,
        phase: Phase::ReadSource(Stage::Vertex),
        vertex_shader: 0,
        fragment_shader: 0,
        program: 0,
        uniforms: Seq::empty(),
        attributes: Seq::empty(),
        vertex_buffer: 0,
        element_buffer: 0,
        textures: Seq::empty(),
        image: None,
        source: None,
    }
}

pub open spec fn with_phase(s: BuildState, p: Phase) -> BuildState {
    BuildState { phase: p, ..s }
}

/// The phase after a buffer of this role has been uploaded.
pub open spec fn after_upload(s: BuildState, role: BufferRole) -> Phase {
    match role {
        BufferRole::Vertices => Phase::CreateBuffer(BufferRole::Indices),
        BufferRole::Indices => if texture_count(s.scene) == 0 {
            Phase::Done
        } else {
            Phase::LoadImage
        },
    }
}

/// The state after `reply` answers the request of state `s`. A reply that
/// does not answer that request leaves the state as it is; so does every
/// reply once construction is done or has failed.
pub open spec fn after(s: BuildState, reply: Reply) -> BuildState {
    let failed = with_phase(s, Phase::Failed);
    match s.phase {
        Phase::ReadSource(st) => match reply {
            Reply::Source(text) => BuildState {
                source: Some(text@),
                phase: Phase::CreateShader(st),
                ..s
            },
            Reply::Unreadable(_) => failed,
            _ => s,
        },
        Phase::CreateShader(st) => match reply {
            Reply::NotCreated(_) => failed,
            Reply::Created(id) => if id == 0 {
                failed
            } else {
                match st {
                    Stage::Vertex => BuildState {
                        vertex_shader: id,
                        phase: Phase::CompileShader(st),
                        ..s
                    },
                    Stage::Fragment => BuildState {
                        fragment_shader: id,
                        phase: Phase::CompileShader(st),
                        ..s
                    },
                }
            },
            _ => s,
        },
        Phase::CompileShader(st) => match reply {
            Reply::Status { ok, log } => if !ok {
                failed
            } else {
                BuildState {
                    source: None,
                    phase: match st {
                        Stage::Vertex => Phase::ReadSource(Stage::Fragment),
                        Stage::Fragment => Phase::CreateProgram,
                    },
                    ..s
                }
            },
            _ => s,
        },
        Phase::CreateProgram => match reply {
            Reply::NotCreated(_) => failed,
            Reply::Created(id) => if id == 0 {
                failed
            } else {
                BuildState { program: id, phase: Phase::LinkProgram, ..s }
            },
            _ => s,
        },
        Phase::LinkProgram => match reply {
            Reply::Status { ok, log } => if !ok {
                failed
            } else {
                with_phase(s, Phase::LocateUniforms)
            },
            _ => s,
        },
        Phase::LocateUniforms => match reply {
            Reply::Location(l) => if l < 0 {
                failed
            } else {
                let u = s.uniforms.push(l);
                BuildState {
                    uniforms: u,
                    phase: if u.len() == UNIFORM_COUNT {
                        Phase::LocateAttributes
                    } else {
                        Phase::LocateUniforms
                    },
                    ..s
                }
            },
            _ => s,
        },
        Phase::LocateAttributes => match reply {
            Reply::Location(l) => if l < 0 {
                failed
            } else {
                let a = s.attributes.push(l);
                BuildState {
                    attributes: a,
                    phase: if a.len() == attribute_count(s.scene) {
                        Phase::CreateBuffer(BufferRole::Vertices)
                    } else {
                        Phase::LocateAttributes
                    },
                    ..s
                }
            },
            _ => s,
        },
        Phase::CreateBuffer(role) => match reply {
            Reply::NotCreated(_) => failed,
            Reply::Created(id) => if id == 0 {
                failed
            } else {
                match role {
                    BufferRole::Vertices => BuildState {
                        vertex_buffer: id,
                        phase: Phase::UploadBuffer(role),
                        ..s
                    },
                    BufferRole::Indices => BuildState {
                        element_buffer: id,
                        phase: Phase::UploadBuffer(role),
                        ..s
                    },
                }
            },
            _ => s,
        },
        Phase::UploadBuffer(role) => match reply {
            Reply::Uploaded => with_phase(s, after_upload(s, role)),
            _ => s,
        },
        Phase::LoadImage => match reply {
            Reply::Image(img) => if img.fits() {
                BuildState {
                    image: Some((img.width, img.height, img.packed())),
                    phase: Phase::CreateTexture,
                    ..s
                }
            } else {
                failed
            },
            Reply::Unreadable(_) => failed,
            Reply::Unconvertible(_) => failed,
            _ => s,
        },
        Phase::CreateTexture => match reply {
            Reply::NotCreated(_) => failed,
            Reply::Created(id) => if id == 0 {
                failed
            } else {
                BuildState { textures: s.textures.push(id), phase: Phase::UploadTexture, ..s }
            },
            _ => s,
        },
        Phase::UploadTexture => match reply {
            Reply::Uploaded => BuildState {
                image: None,
                phase: if s.textures.len() == texture_count(s.scene) {
                    Phase::Done
                } else {
                    Phase::LoadImage
                },
                ..s
            },
            _ => s,
        },
        Phase::Done => s,
        Phase::Failed => s,
    }
}

/// The error with which `reply` ends the construction in state `s`, if it
/// does.
pub open spec fn failure(s: BuildState, reply: Reply) -> Option<BuildError> {
    match s.phase {
        Phase::ReadSource(stage) => match reply {
            Reply::Unreadable(text) => Some(BuildError::ShaderUnreadable { stage, text }),
            _ => None,
        },
        Phase::CreateShader(_) => match reply {
            Reply::Created(id) => if id == 0 {
                Some(BuildError::ResourceCreation { object: GpuObject::Shader, text: None })
            } else {
                None
            },
            Reply::NotCreated(text) => Some(
                BuildError::ResourceCreation { object: GpuObject::Shader, text: Some(text) },
            ),
            _ => None,
        },
        Phase::CompileShader(stage) => match reply {
            Reply::Status { ok, log } => if !ok {
                Some(BuildError::Compile { stage, log })
            } else {
                None
            },
            _ => None,
        },
        Phase::CreateProgram => match reply {
            Reply::Created(id) => if id == 0 {
                Some(BuildError::ResourceCreation { object: GpuObject::Program, text: None })
            } else {
                None
            },
            Reply::NotCreated(text) => Some(
                BuildError::ResourceCreation { object: GpuObject::Program, text: Some(text) },
            ),
            _ => None,
        },
        Phase::LinkProgram => match reply {
            Reply::Status { ok, log } => if !ok {
                Some(BuildError::Link { log })
            } else {
                None
            },
            _ => None,
        },
        Phase::LocateUniforms => match reply {
            Reply::Location(l) => if l < 0 {
                Some(BuildError::MissingUniform(uniform_at(s.scene, s.uniforms.len() as int)))
            } else {
                None
            },
            _ => None,
        },
        Phase::LocateAttributes => match reply {
            Reply::Location(l) => if l < 0 {
                Some(
                    BuildError::MissingAttribute(
                        attribute_at(s.scene, s.attributes.len() as int),
                    ),
                )
            } else {
                None
            },
            _ => None,
        },
        Phase::CreateBuffer(_) => match reply {
            Reply::Created(id) => if id == 0 {
                Some(BuildError::ResourceCreation { object: GpuObject::Buffer, text: None })
            } else {
                None
            },
            Reply::NotCreated(text) => Some(
                BuildError::ResourceCreation { object: GpuObject::Buffer, text: Some(text) },
            ),
            _ => None,
        },
        Phase::LoadImage => match reply {
            Reply::Image(img) => if img.fits() {
                None
            } else {
                Some(BuildError::ImageLayout { image: s.textures.len() as usize })
            },
            Reply::Unreadable(text) => Some(
                BuildError::ImageUnreadable { image: s.textures.len() as usize, text },
            ),
            Reply::Unconvertible(text) => Some(
                BuildError::FormatConversion { image: s.textures.len() as usize, text },
            ),
            _ => None,
        },
        Phase::CreateTexture => match reply {
            Reply::Created(id) => if id == 0 {
                Some(BuildError::ResourceCreation { object: GpuObject::Texture, text: None })
            } else {
                None
            },
            Reply::NotCreated(text) => Some(
                BuildError::ResourceCreation { object: GpuObject::Texture, text: Some(text) },
            ),
            _ => None,
        },
        _ => None,
    }
}

/// Both shaders are made.
pub open spec fn shaders_made(s: BuildState) -> bool {
    s.vertex_shader != 0 && s.fragment_shader != 0
}

/// Both shaders and the program are made.
pub open spec fn linked(s: BuildState) -> bool {
    shaders_made(s) && s.program != 0
}

/// The program is made and every location of the scene is found.
pub open spec fn located(s: BuildState) -> bool {
    linked(s) && s.uniforms.len() == UNIFORM_COUNT && s.attributes.len() == attribute_count(
        s.scene,
    )
}

/// The program is located and both buffers are made.
pub open spec fn buffered(s: BuildState) -> bool {
    located(s) && s.vertex_buffer != 0 && s.element_buffer != 0
}

/// No location has been looked up and no texture made yet.
pub open spec fn nothing_found(s: BuildState) -> bool {
    s.uniforms.len() == 0 && s.attributes.len() == 0 && s.textures.len() == 0
}

/// What holds of a construction in each phase: the objects made so far are
/// real and the locations found so far are valid.
pub open spec fn inv(s: BuildState) -> bool {
    &&& s.uniforms.len() <= UNIFORM_COUNT
    &&& s.attributes.len() <= attribute_count(s.scene)
    &&& s.textures.len() <= texture_count(s.scene)
    &&& forall|k: int| 0 <= k < s.uniforms.len() ==> #[trigger] s.uniforms[k] >= 0
    &&& forall|k: int| 0 <= k < s.attributes.len() ==> #[trigger] s.attributes[k] >= 0
    &&& forall|k: int| 0 <= k < s.textures.len() ==> #[trigger] s.textures[k] != 0
    &&& s.image is Some ==> (s.phase == Phase::CreateTexture || s.phase == Phase::UploadTexture
        || s.phase == Phase::Failed)
    &&& s.source is Some ==> (s.phase is CreateShader || s.phase is CompileShader || s.phase
        == Phase::Failed)
    &&& match s.phase {
        Phase::ReadSource(Stage::Vertex) => nothing_found(s) && s.vertex_shader == 0
            && s.fragment_shader == 0,
        Phase::CreateShader(Stage::Vertex) => nothing_found(s) && s.vertex_shader == 0
            && s.fragment_shader == 0 && s.source is Some,
        Phase::CompileShader(Stage::Vertex) => nothing_found(s) && s.vertex_shader != 0
            && s.fragment_shader == 0 && s.source is Some,
        Phase::ReadSource(Stage::Fragment) => nothing_found(s) && s.vertex_shader != 0
            && s.fragment_shader == 0,
        Phase::CreateShader(Stage::Fragment) => nothing_found(s) && s.vertex_shader != 0
            && s.fragment_shader == 0 && s.source is Some,
        Phase::CompileShader(Stage::Fragment) => nothing_found(s) && shaders_made(s)
            && s.source is Some,
        Phase::CreateProgram => nothing_found(s) && shaders_made(s),
        Phase::LinkProgram => nothing_found(s) && linked(s),
        Phase::LocateUniforms => linked(s) && s.uniforms.len() < UNIFORM_COUNT
            && s.attributes.len() == 0 && s.textures.len() == 0,
        Phase::LocateAttributes => linked(s) && s.uniforms.len() == UNIFORM_COUNT
            && s.attributes.len() < attribute_count(s.scene) && s.textures.len() == 0,
        Phase::CreateBuffer(BufferRole::Vertices) => located(s) && s.textures.len() == 0,
        Phase::UploadBuffer(BufferRole::Vertices) => located(s) && s.vertex_buffer != 0
            && s.textures.len() == 0,
        Phase::CreateBuffer(BufferRole::Indices) => located(s) && s.vertex_buffer != 0
            && s.textures.len() == 0,
        Phase::UploadBuffer(BufferRole::Indices) => buffered(s) && s.textures.len() == 0,
        Phase::LoadImage => buffered(s) && s.textures.len() < texture_count(s.scene)
            && s.image is None,
        Phase::CreateTexture => buffered(s) && s.textures.len() < texture_count(s.scene)
            && s.image is Some,
        Phase::UploadTexture => buffered(s) && s.textures.len() >= 1 && s.image is Some,
        Phase::Done => buffered(s) && s.textures.len() == texture_count(s.scene),
        Phase::Failed => true,
    }
}

/// The request that state `s` makes: `r` is it.
pub open spec fn request_fits(s: BuildState, r: Request) -> bool {
    match s.phase {
        Phase::ReadSource(st) => r == Request::ReadSource(st),
        Phase::CreateShader(st) => r == Request::CreateShader(st),
        Phase::CompileShader(st) => match r {
            Request::CompileShader { shader, stage, source } => {
                &&& shader == ShaderHandle(
                    match st {
                        Stage::Vertex => s.vertex_shader,
                        Stage::Fragment => s.fragment_shader,
                    },
                )
                &&& stage == st
                &&& s.source == Some(source@)
            },
            _ => false,
        },
        Phase::CreateProgram => r == Request::CreateProgram,
        Phase::LinkProgram => r == (Request::LinkProgram {
            program: ProgramHandle(s.program),
            vertex: ShaderHandle(s.vertex_shader),
            fragment: ShaderHandle(s.fragment_shader),
        }),
        Phase::LocateUniforms => r == (Request::UniformLocation {
            program: ProgramHandle(s.program),
            uniform: uniform_at(s.scene, s.uniforms.len() as int),
        }),
        Phase::LocateAttributes => r == (Request::AttributeLocation {
            program: ProgramHandle(s.program),
            attribute: attribute_at(s.scene, s.attributes.len() as int),
        }),
        Phase::CreateBuffer(_) => r == Request::CreateBuffer,
        Phase::UploadBuffer(role) => match r {
            Request::UploadBuffer { buffer, role: rl, usage, data } => {
                &&& buffer == BufferHandle(
                    match role {
                        BufferRole::Vertices => s.vertex_buffer,
                        BufferRole::Indices => s.element_buffer,
                    },
                )
                &&& rl == role
                &&& usage == Usage::StaticDraw
                &&& match (role, data) {
                    (BufferRole::Vertices, BufferData::Vertices(v)) => v@ == vertex_seq(s.scene),
                    (BufferRole::Indices, BufferData::Indices(v)) => v@ == index_seq(s.scene),
                    _ => false,
                }
            },
            _ => false,
        },
        Phase::LoadImage => r == (Request::LoadImage { image: s.textures.len() as usize }),
        Phase::CreateTexture => r == Request::CreateTexture,
        Phase::UploadTexture => match r {
            Request::UploadTexture {
                texture,
                width,
                height,
                pixels,
                level,
                format,
                filter,
                wrap,
            } => {
                &&& texture == TextureHandle(s.textures.last())
                &&& s.image == Some((width, height, pixels@))
                &&& level == 0
                &&& format == TexelFormat::Rgb8
                &&& filter == Filter::Linear
                &&& wrap == Wrap::ClampToEdge
            },
            _ => false,
        },
        Phase::Done => r == Request::Finished,
        Phase::Failed => r == Request::Abandoned,
    }
}

/// Every answer keeps the invariant.
proof fn lemma_after_keeps_inv(s: BuildState, reply: Reply)
    requires
        inv(s),
    ensures
        inv(after(s, reply)),
{
    let t = after(s, reply);
    match s.phase {
        Phase::LocateUniforms => {
            assert forall|k: int| 0 <= k < t.uniforms.len() implies #[trigger] t.uniforms[k] >= 0 by {
                if k < s.uniforms.len() {
                    assert(t.uniforms[k] == s.uniforms[k]);
                }
            }
        },
        Phase::LocateAttributes => {
            assert forall|k: int| 0 <= k < t.attributes.len() implies #[trigger] t.attributes[k] >= 0 by {
                if k < s.attributes.len() {
                    assert(t.attributes[k] == s.attributes[k]);
                }
            }
        },
        Phase::CreateTexture => {
            assert forall|k: int| 0 <= k < t.textures.len() implies #[trigger] t.textures[k] != 0 by {
                if k < s.textures.len() {
                    assert(t.textures[k] == s.textures[k]);
                }
            }
        },
        _ => {},
    }
}

/// The state after answering with each reply in turn.
pub open spec fn run(s: BuildState, replies: Seq<Reply>) -> BuildState
    decreases replies.len(),
{
    if replies.len() == 0 {
        s
    } else {
        run(after(s, replies[0]), replies.drop_first())
    }
}

/// Construction ends at its first failure: once failed, no later answer
/// changes anything, so no bundle can come of it.
pub proof fn lemma_failure_is_final(s: BuildState, replies: Seq<Reply>)
    requires
        s.phase == Phase::Failed,
    ensures
        run(s, replies) == s,
    decreases replies.len(),
{
    if replies.len() > 0 {
        lemma_failure_is_final(after(s, replies[0]), replies.drop_first());
    }
}

/// Two replies that say the same thing but for the number a new object got.
pub open spec fn same_but_handles(a: Reply, b: Reply) -> bool {
    match (a, b) {
        (Reply::Created(x), Reply::Created(y)) => (x == 0) == (y == 0),
        _ => a == b,
    }
}

/// Two states that differ at most in the numbers of the objects made.
pub open spec fn alike(s: BuildState, t: BuildState) -> bool {
    &&& s.scene == t.scene
    &&& s.phase == t.phase
    &&& s.uniforms == t.uniforms
    &&& s.attributes == t.attributes
    &&& s.textures.len() == t.textures.len()
    &&& s.image == t.image
    &&& s.source == t.source
}

/// Two requests that ask the same thing but for the numbers of the objects
/// they name.
pub open spec fn requests_alike(a: Request, b: Request) -> bool {
    match (a, b) {
        (
            Request::CompileShader { stage: s1, source: x1, .. },
            Request::CompileShader { stage: s2, source: x2, .. },
        ) => s1 == s2 && x1@ == x2@,
        (Request::LinkProgram { .. }, Request::LinkProgram { .. }) => true,
        (
            Request::UniformLocation { uniform: u1, .. },
            Request::UniformLocation { uniform: u2, .. },
        ) => u1 == u2,
        (
            Request::AttributeLocation { attribute: a1, .. },
            Request::AttributeLocation { attribute: a2, .. },
        ) => a1 == a2,
        (
            Request::UploadBuffer { role: r1, usage: g1, data: d1, .. },
            Request::UploadBuffer { role: r2, usage: g2, data: d2, .. },
        ) => r1 == r2 && g1 == g2 && match (d1, d2) {
            (BufferData::Vertices(v1), BufferData::Vertices(v2)) => v1@ == v2@,
            (BufferData::Indices(v1), BufferData::Indices(v2)) => v1@ == v2@,
            _ => false,
        },
        (
            Request::UploadTexture {
                width: w1,
                height: h1,
                pixels: p1,
                level: l1,
                format: f1,
                filter: i1,
                wrap: r1,
                ..
            },
            Request::UploadTexture {
                width: w2,
                height: h2,
                pixels: p2,
                level: l2,
                format: f2,
                filter: i2,
                wrap: r2,
                ..
            },
        ) => w1 == w2 && h1 == h2 && p1@ == p2@ && l1 == l2 && f1 == f2 && i1 == i2 && r1 == r2,
        _ => a == b,
    }
}

proof fn lemma_request_alike(s: BuildState, t: BuildState, a: Request, b: Request)
    requires
        alike(s, t),
        request_fits(s, a),
        request_fits(t, b),
    ensures
        requests_alike(a, b),
{
}

proof fn lemma_after_alike(s: BuildState, t: BuildState, a: Reply, b: Reply)
    requires
        alike(s, t),
        same_but_handles(a, b),
    ensures
        alike(after(s, a), after(t, b)),
{
    match a {
        Reply::Created(x) => {
            match b {
                Reply::Created(y) => {},
                _ => {},
            }
        },
        _ => {
            assert(a == b);
        },
    }
}

proof fn lemma_run_alike(s: BuildState, t: BuildState, r1: Seq<Reply>, r2: Seq<Reply>)
    requires
        alike(s, t),
        r1.len() == r2.len(),
        forall|k: int| 0 <= k < r1.len() ==> same_but_handles(#[trigger] r1[k], r2[k]),
    ensures
        alike(run(s, r1), run(t, r2)),
    decreases r1.len(),
{
    if r1.len() > 0 {
        lemma_after_alike(s, t, r1[0], r2[0]);
        assert forall|k: int| 0 <= k < r1.len() - 1 implies same_but_handles(
            #[trigger] r1.drop_first()[k],
            r2.drop_first()[k],
        ) by {
            assert(same_but_handles(r1[k + 1], r2[k + 1]));
        }
        lemma_run_alike(after(s, r1[0]), after(t, r2[0]), r1.drop_first(), r2.drop_first());
    }
}

/// Location lookup does not depend on the numbers the GPU gives to new
/// objects. Two constructions of one scene, answered alike but for those
/// numbers, end in the same phase with the same location table.
pub proof fn lemma_locations_ignore_handles(scene: Scene, r1: Seq<Reply>, r2: Seq<Reply>)
    requires
        r1.len() == r2.len(),
        forall|k: int| 0 <= k < r1.len() ==> same_but_handles(#[trigger] r1[k], r2[k]),
    ensures
        run(initial(scene), r1).phase == run(initial(scene), r2).phase,
        run(initial(scene), r1).uniforms == run(initial(scene), r2).uniforms,
        run(initial(scene), r1).attributes == run(initial(scene), r2).attributes,
{
    lemma_run_alike(initial(scene), initial(scene), r1, r2);
}

/// Two constructions of one scene, answered alike but for the numbers the
/// GPU gives to new objects, ask for the same things in the same order: after
/// the same number of answers, their requests differ at most in the numbers of
/// the objects they name.
pub proof fn lemma_requests_ignore_handles(
    scene: Scene,
    r1: Seq<Reply>,
    r2: Seq<Reply>,
    k: int,
    q1: Request,
    q2: Request,
)
    requires
        r1.len() == r2.len(),
        forall|j: int| 0 <= j < r1.len() ==> same_but_handles(#[trigger] r1[j], r2[j]),
        0 <= k <= r1.len(),
        request_fits(run(initial(scene), r1.take(k)), q1),
        request_fits(run(initial(scene), r2.take(k)), q2),
    ensures
        requests_alike(q1, q2),
{
    assert forall|j: int| 0 <= j < r1.take(k).len() implies same_but_handles(
        #[trigger] r1.take(k)[j],
        r2.take(k)[j],
    ) by {
        assert(same_but_handles(r1[j], r2[j]));
    }
    lemma_run_alike(initial(scene), initial(scene), r1.take(k), r2.take(k));
    lemma_request_alike(run(initial(scene), r1.take(k)), run(initial(scene), r2.take(k)), q1, q2);
}

impl Builder {
    /// A construction of the scene's resources, before its first request.
    pub fn new(scene: Scene) -> (r: Builder)
        ensures
            r@ == initial(scene),
            inv(r@),
    {
        Builder {
            scene,
            phase: Phase::ReadSource(Stage::Vertex),
            vertex_shader: 0,
            fragment_shader: 0,
            program: 0,
            uniforms: Vec::new(),
            attributes: Vec::new(),
            vertex_buffer: 0,
            element_buffer: 0,
            textures: Vec::new(),
            image: None,
            source: None,
        }
    }

    /// What the GPU side must do next.
    pub fn request(&self) -> (r: Request)
        requires
            inv(self@),
        ensures
            request_fits(self@, r),
    {
        match self.phase {
            Phase::ReadSource(st) => Request::ReadSource(st),
            Phase::CreateShader(st) => Request::CreateShader(st),
            Phase::CompileShader(st) => {
                let id = match st {
                    Stage::Vertex => self.vertex_shader,
                    Stage::Fragment => self.fragment_shader,
                };
                match &self.source {
                    Some(src) => Request::CompileShader {
                        shader: ShaderHandle(id),
                        stage: st,
                        source: src.clone(),
                    },
                    None => Request::Abandoned,
                }
            },
            Phase::CreateProgram => Request::CreateProgram,
            Phase::LinkProgram => Request::LinkProgram {
                program: ProgramHandle(self.program),
                vertex: ShaderHandle(self.vertex_shader),
                fragment: ShaderHandle(self.fragment_shader),
            },
            Phase::LocateUniforms => Request::UniformLocation {
                program: ProgramHandle(self.program),
                uniform: self.scene.uniform(self.uniforms.len()),
            },
            Phase::LocateAttributes => Request::AttributeLocation {
                program: ProgramHandle(self.program),
                attribute: self.scene.attribute(self.attributes.len()),
            },
            Phase::CreateBuffer(_) => Request::CreateBuffer,
            Phase::UploadBuffer(role) => {
                let id = match role {
                    BufferRole::Vertices => self.vertex_buffer,
                    BufferRole::Indices => self.element_buffer,
                };
                let data = match role {
                    BufferRole::Vertices => BufferData::Vertices(vertex_data(self.scene)),
                    BufferRole::Indices => BufferData::Indices(index_data(self.scene)),
                };
                Request::UploadBuffer { buffer: BufferHandle(id), role, usage: Usage::StaticDraw, data }
            },
            Phase::LoadImage => Request::LoadImage { image: self.textures.len() },
            Phase::CreateTexture => Request::CreateTexture,
            Phase::UploadTexture => {
                let last = self.textures[self.textures.len() - 1];
                match &self.image {
                    Some(img) => Request::UploadTexture {
                        texture: TextureHandle(last),
                        width: img.width,
                        height: img.height,
                        pixels: img.pixels.clone(),
                        level: 0,
                        format: TexelFormat::Rgb8,
                        filter: Filter::Linear,
                        wrap: Wrap::ClampToEdge,
                    },
                    None => Request::Abandoned,
                }
            },
            Phase::Done => Request::Finished,
            Phase::Failed => Request::Abandoned,
        }
    }

    fn fail(&mut self)
        requires
            inv(old(self)@),
        ensures
            final(self)@ == with_phase(old(self)@, Phase::Failed),
            inv(final(self)@),
    {
        self.phase = Phase::Failed;
    }

    /// Takes the answer to the pending request and moves on; the error is the
    /// one with which the answer ends the construction.
    pub fn step(&mut self, reply: Reply) -> (r: Result<(), BuildError>)
        requires
            inv(old(self)@),
        ensures
            inv(final(self)@),
            final(self)@ == after(old(self)@, reply),
            r == (match failure(old(self)@, reply) {
                Some(e) => Err(e),
                None => Ok(()),
            }),
            r matches Err(BuildError::ShaderUnreadable { stage, text }) ==> match stage {
                Stage::Vertex => old(self).vertex_shader == 0,
                Stage::Fragment => old(self).fragment_shader == 0,
            },
    {
        proof {
            lemma_after_keeps_inv(self@, reply);
        }
        match self.phase {
            Phase::ReadSource(stage) => match reply {
                Reply::Source(text) => {
                    self.source = Some(text);
                    self.phase = Phase::CreateShader(stage);
                    Ok(())
                },
                Reply::Unreadable(text) => {
                    self.fail();
                    Err(BuildError::ShaderUnreadable { stage, text })
                },
                _ => Ok(()),
            },
            Phase::CreateShader(st) => match reply {
                Reply::NotCreated(text) => {
                    self.fail();
                    Err(BuildError::ResourceCreation { object: GpuObject::Shader, text: Some(text) })
                },
                Reply::Created(id) => {
                    if id == 0 {
                        self.fail();
                        return Err(BuildError::ResourceCreation { object: GpuObject::Shader, text: None });
                    }
                    match st {
                        Stage::Vertex => self.vertex_shader = id,
                        Stage::Fragment => self.fragment_shader = id,
                    }
                    self.phase = Phase::CompileShader(st);
                    Ok(())
                },
                _ => Ok(()),
            },
            Phase::CompileShader(stage) => match reply {
                Reply::Status { ok, log } => {
                    if !ok {
                        self.fail();
                        return Err(BuildError::Compile { stage, log });
                    }
                    self.source = None;
                    self.phase = match stage {
                        Stage::Vertex => Phase::ReadSource(Stage::Fragment),
                        Stage::Fragment => Phase::CreateProgram,
                    };
                    Ok(())
                },
                _ => Ok(()),
            },
            Phase::CreateProgram => match reply {
                Reply::NotCreated(text) => {
                    self.fail();
                    Err(BuildError::ResourceCreation { object: GpuObject::Program, text: Some(text) })
                },
                Reply::Created(id) => {
                    if id == 0 {
                        self.fail();
                        return Err(BuildError::ResourceCreation { object: GpuObject::Program, text: None });
                    }
                    self.program = id;
                    self.phase = Phase::LinkProgram;
                    Ok(())
                },
                _ => Ok(()),
            },
            Phase::LinkProgram => match reply {
                Reply::Status { ok, log } => {
                    if !ok {
                        self.fail();
                        return Err(BuildError::Link { log });
                    }
                    self.phase = Phase::LocateUniforms;
                    Ok(())
                },
                _ => Ok(()),
            },
            Phase::LocateUniforms => match reply {
                Reply::Location(l) => {
                    if l < 0 {
                        let u = self.scene.uniform(self.uniforms.len());
                        self.fail();
                        return Err(BuildError::MissingUniform(u));
                    }
                    self.uniforms.push(l);
                    if self.uniforms.len() == UNIFORM_COUNT {
                        self.phase = Phase::LocateAttributes;
                    }
                    Ok(())
                },
                _ => Ok(()),
            },
            Phase::LocateAttributes => match reply {
                Reply::Location(l) => {
                    if l < 0 {
                        let a = self.scene.attribute(self.attributes.len());
                        self.fail();
                        return Err(BuildError::MissingAttribute(a));
                    }
                    self.attributes.push(l);
                    if self.attributes.len() == self.scene.attribute_count() {
                        self.phase = Phase::CreateBuffer(BufferRole::Vertices);
                    }
                    Ok(())
                },
                _ => Ok(()),
            },
            Phase::CreateBuffer(role) => match reply {
                Reply::NotCreated(text) => {
                    self.fail();
                    Err(BuildError::ResourceCreation { object: GpuObject::Buffer, text: Some(text) })
                },
                Reply::Created(id) => {
                    if id == 0 {
                        self.fail();
                        return Err(BuildError::ResourceCreation { object: GpuObject::Buffer, text: None });
                    }
                    match role {
                        BufferRole::Vertices => self.vertex_buffer = id,
                        BufferRole::Indices => self.element_buffer = id,
                    }
                    self.phase = Phase::UploadBuffer(role);
                    Ok(())
                },
                _ => Ok(()),
            },
            Phase::UploadBuffer(role) => match reply {
                Reply::Uploaded => {
                    self.phase = match role {
                        BufferRole::Vertices => Phase::CreateBuffer(BufferRole::Indices),
                        BufferRole::Indices => if self.scene.texture_count() == 0 {
                            Phase::Done
                        } else {
                            Phase::LoadImage
                        },
                    };
                    Ok(())
                },
                _ => Ok(()),
            },
            Phase::LoadImage => match reply {
                Reply::Image(img) => match pack_rgb(&img) {
                    Some(pixels) => {
                        self.image = Some(
                            PackedImage { width: img.width, height: img.height, pixels },
                        );
                        self.phase = Phase::CreateTexture;
                        Ok(())
                    },
                    None => {
                        self.fail();
                        Err(BuildError::ImageLayout { image: self.textures.len() })
                    },
                },
                Reply::Unreadable(text) => {
                    self.fail();
                    Err(BuildError::ImageUnreadable { image: self.textures.len(), text })
                },
                Reply::Unconvertible(text) => {
                    self.fail();
                    Err(BuildError::FormatConversion { image: self.textures.len(), text })
                },
                _ => Ok(()),
            },
            Phase::CreateTexture => match reply {
                Reply::NotCreated(text) => {
                    self.fail();
                    Err(BuildError::ResourceCreation { object: GpuObject::Texture, text: Some(text) })
                },
                Reply::Created(id) => {
                    if id == 0 {
                        self.fail();
                        return Err(BuildError::ResourceCreation { object: GpuObject::Texture, text: None });
                    }
                    self.textures.push(id);
                    self.phase = Phase::UploadTexture;
                    Ok(())
                },
                _ => Ok(()),
            },
            Phase::UploadTexture => match reply {
                Reply::Uploaded => {
                    self.image = None;
                    self.phase = if self.textures.len() == self.scene.texture_count() {
                        Phase::Done
                    } else {
                        Phase::LoadImage
                    };
                    Ok(())
                },
                _ => Ok(()),
            },
            Phase::Done => Ok(()),
            Phase::Failed => Ok(()),
        }
    }

    /// The finished resources; `None` unless construction is done.
    pub fn finish(self) -> (r: Option<Bundle>)
        requires
            inv(self@),
        ensures
            r is Some <==> self@.phase == Phase::Done,
            r matches Some(b) ==> {
                &&& b.wf()
                &&& b.scene == self.scene
                &&& b.program == ProgramHandle(self.program)
                &&& b.vertex_buffer == BufferHandle(self.vertex_buffer)
                &&& b.element_buffer == BufferHandle(self.element_buffer)
                &&& b.uniforms@ == self.uniforms@
                &&& b.attributes@ == self.attributes@
                &&& b.textures@.len() == self.textures@.len()
                &&& forall|k: int|
                    0 <= k < b.textures@.len() ==> #[trigger] b.textures@[k] == TextureHandle(
                        self.textures@[k],
                    )
            },
    {
        if self.phase != Phase::Done {
            return None;
        }
        let mut textures: Vec<TextureHandle> = Vec::new();
        let mut k: usize = 0;
        while k < self.textures.len()
            invariant
                k <= self.textures@.len(),
                textures@.len() == k,
                forall|j: int|
                    0 <= j < k ==> #[trigger] textures@[j] == TextureHandle(self.textures@[j]),
            decreases self.textures@.len() - k,
        {
            textures.push(TextureHandle(self.textures[k]));
            k = k + 1;
        }
        Some(
            Bundle {
                scene: self.scene,
                program: ProgramHandle(self.program),
                vertex_buffer: BufferHandle(self.vertex_buffer),
                element_buffer: BufferHandle(self.element_buffer),
                textures,
                uniforms: self.uniforms,
                attributes: self.attributes,
            },
        )
    }
}

} // verus!
