use crate::geometry::{CUBE_STRIP_LEN, QUAD_VERTEX_COUNT};
use crate::handles::{BufferHandle, ProgramHandle, TextureHandle};
use crate::resources::{BufferRole, Bundle};
use crate::scene::{attribute_count, Scene};
use vstd::prelude::*;

verus! {

/// A matrix the cube's program reads, computed by the caller for each frame.
#[derive(Clone, Copy, Debug, PartialEq, Eq, Structural)]
pub enum Matrix {
    /// Translation by (0, 0, -8), then the turns about X, Y and Z.
    ModelView,
    /// The frustum projection times the model-view matrix.
    ModelViewProjection,
    /// The top-left 3 x 3 block of the model-view matrix.
    Normal,
}

/// One GPU command of a frame.
#[derive(Clone, Copy, Debug, PartialEq, Eq, Structural)]
pub enum Command {
    /// Cull back faces.
    EnableCullFace,
    /// Draw into the whole window.
    Viewport { width: i32, height: i32 },
    /// Clear the colour buffer to the grey (level/255, level/255, level/255, 1).
    Clear { level: u8 },
    UseProgram(ProgramHandle),
    /// Upload a matrix to the uniform at `location`.
    UniformMatrix { location: i32, matrix: Matrix },
    /// Upload the current fade factor to the uniform at `location`.
    UniformFade { location: i32 },
    /// Upload an integer to the uniform at `location`.
    UniformInt { location: i32, value: i32 },
    /// Make texture unit `unit` the active one.
    ActiveTexture(u32),
    /// Bind a 2-D texture to the active unit.
    BindTexture(TextureHandle),
    /// Bind a buffer for its role.
    BindBuffer { role: BufferRole, buffer: BufferHandle },
    /// Read vertex input `index` as `components` floats, `stride` bytes apart,
    /// starting `offset` bytes into the bound vertex buffer.
    AttribPointer { index: u32, components: i32, stride: i32, offset: u32 },
    EnableAttrib(u32),
    DisableAttrib(u32),
    /// Draw `count` 16-bit indices of the bound index buffer as a triangle strip.
    DrawStrip { count: i32 },
}

/// Grey level of the cube's background: 0.2 of full intensity.
pub const CLEAR_LEVEL: u8 = 51;

/// The location of the bundle's vertex input `k`, as an index.
pub open spec fn attr(b: Bundle, k: int) -> u32 {
    b.attributes@[k] as u32
}

/// Floats per vertex input of the scene.
pub open spec fn components(scene: Scene) -> i32 {
    match scene {
        Scene::Cube => 3,
        Scene::Quad => 2,
    }
}

/// Bytes from one vertex to the next: nine floats for the cube, two for the quad.
pub open spec fn stride(scene: Scene) -> i32 {
    match scene {
        Scene::Cube => 36,
        Scene::Quad => 8,
    }
}

/// Indices drawn for the scene.
pub open spec fn strip_len(scene: Scene) -> i32 {
    match scene {
        Scene::Cube => CUBE_STRIP_LEN as i32,
        Scene::Quad => QUAD_VERTEX_COUNT as i32,
    }
}

/// The commands before the vertex inputs are set up: bind the program and
/// upload its uniforms, and bind the vertex buffer.
pub open spec fn setup(b: Bundle, width: i32, height: i32) -> Seq<Command> {
    match b.scene {
        Scene::Cube => seq![
            Command::EnableCullFace,
            Command::Viewport { width, height },
            Command::Clear { level: CLEAR_LEVEL },
            Command::UseProgram(b.program),
            Command::UniformMatrix { location: b.uniforms@[0], matrix: Matrix::ModelView },
            Command::UniformMatrix { location: b.uniforms@[1], matrix: Matrix::ModelViewProjection },
            Command::UniformMatrix { location: b.uniforms@[2], matrix: Matrix::Normal },
            Command::BindBuffer { role: BufferRole::Vertices, buffer: b.vertex_buffer },
        ],
        Scene::Quad => seq![
            Command::UseProgram(b.program),
            Command::UniformFade { location: b.uniforms@[0] },
            Command::ActiveTexture(0),
            Command::BindTexture(b.textures@[0]),
            Command::UniformInt { location: b.uniforms@[1], value: 0 },
            Command::ActiveTexture(1),
            Command::BindTexture(b.textures@[1]),
            Command::UniformInt { location: b.uniforms@[2], value: 1 },
            Command::BindBuffer { role: BufferRole::Vertices, buffer: b.vertex_buffer },
        ],
    }
}

/// Where each vertex input is read from: the cube's position, colour and
/// normal sit 0, 12 and 24 bytes into each vertex.
pub open spec fn pointers(b: Bundle) -> Seq<Command> {
    Seq::new(
        attribute_count(b.scene),
        |k: int|
            Command::AttribPointer {
                index: attr(b, k),
                components: components(b.scene),
                stride: stride(b.scene),
                offset: (12 * k) as u32,
            },
    )
}

pub open spec fn enables(b: Bundle) -> Seq<Command> {
    Seq::new(attribute_count(b.scene), |k: int| Command::EnableAttrib(attr(b, k)))
}

pub open spec fn disables(b: Bundle) -> Seq<Command> {
    Seq::new(attribute_count(b.scene), |k: int| Command::DisableAttrib(attr(b, k)))
}

/// Bind the index buffer and draw the whole strip.
pub open spec fn draw(b: Bundle) -> Seq<Command> {
    seq![
        Command::BindBuffer { role: BufferRole::Indices, buffer: b.element_buffer },
        Command::DrawStrip { count: strip_len(b.scene) },
    ]
}

/// The commands of one frame.
pub open spec fn frame_spec(b: Bundle, width: i32, height: i32) -> Seq<Command> {
    setup(b, width, height) + pointers(b) + enables(b) + draw(b) + disables(b)
}

/// The commands that draw one frame of the bundle's scene.
pub fn frame_commands(b: &Bundle, width: i32, height: i32) -> (r: Vec<Command>)
    requires
        b.wf(),
    ensures
        r@ == frame_spec(*b, width, height),
{
    let mut out: Vec<Command> = Vec::new();
    match b.scene {
        Scene::Cube => {
            out.push(Command::EnableCullFace);
            out.push(Command::Viewport { width, height });
            out.push(Command::Clear { level: CLEAR_LEVEL });
            out.push(Command::UseProgram(b.program));
            out.push(Command::UniformMatrix { location: b.uniforms[0], matrix: Matrix::ModelView });
            out.push(
                Command::UniformMatrix {
                    location: b.uniforms[1],
                    matrix: Matrix::ModelViewProjection,
                },
            );
            out.push(Command::UniformMatrix { location: b.uniforms[2], matrix: Matrix::Normal });
        },
        Scene::Quad => {
            out.push(Command::UseProgram(b.program));
            out.push(Command::UniformFade { location: b.uniforms[0] });
            out.push(Command::ActiveTexture(0));
            out.push(Command::BindTexture(b.textures[0]));
            out.push(Command::UniformInt { location: b.uniforms[1], value: 0 });
            out.push(Command::ActiveTexture(1));
            out.push(Command::BindTexture(b.textures[1]));
            out.push(Command::UniformInt { location: b.uniforms[2], value: 1 });
        },
    }
    out.push(Command::BindBuffer { role: BufferRole::Vertices, buffer: b.vertex_buffer });
    let ghost pre = out@;
    assert(pre =~= setup(*b, width, height));
    let n = b.scene.attribute_count();
    let (comps, step): (i32, i32) = match b.scene {
        Scene::Cube => (3, 36),
        Scene::Quad => (2, 8),
    };
    let mut k: usize = 0;
    while k < n
        invariant
            b.wf(),
            n == attribute_count(b.scene),
            comps == components(b.scene),
            step == stride(b.scene),
            k <= n,
            out@ =~= pre + pointers(*b).take(k as int),
        decreases n - k,
    {
        out.push(
            Command::AttribPointer {
                index: b.attributes[k] as u32,
                components: comps,
                stride: step,
                offset: (12 * k) as u32,
            },
        );
        k = k + 1;
    }
    let ghost pre2 = out@;
    k = 0;
    while k < n
        invariant
            b.wf(),
            n == attribute_count(b.scene),
            k <= n,
            out@ =~= pre2 + enables(*b).take(k as int),
        decreases n - k,
    {
        out.push(Command::EnableAttrib(b.attributes[k] as u32));
        k = k + 1;
    }
    out.push(Command::BindBuffer { role: BufferRole::Indices, buffer: b.element_buffer });
    let count: i32 = match b.scene {
        Scene::Cube => CUBE_STRIP_LEN as i32,
        Scene::Quad => QUAD_VERTEX_COUNT as i32,
    };
    out.push(Command::DrawStrip { count });
    let ghost pre3 = out@;
    k = 0;
    while k < n
        invariant
            b.wf(),
            n == attribute_count(b.scene),
            k <= n,
            out@ =~= pre3 + disables(*b).take(k as int),
        decreases n - k,
    {
        out.push(Command::DisableAttrib(b.attributes[k] as u32));
        k = k + 1;
    }
    assert(pointers(*b).take(n as int) =~= pointers(*b));
    assert(enables(*b).take(n as int) =~= enables(*b));
    assert(disables(*b).take(n as int) =~= disables(*b));
    assert(out@ =~= frame_spec(*b, width, height));
    out
}

/// A command that neither draws nor switches a vertex input on or off.
pub open spec fn is_plain(c: Command) -> bool {
    !(c is DrawStrip) && !(c is EnableAttrib) && !(c is DisableAttrib)
}

/// Where the draw stands in a frame of the bundle.
pub open spec fn draw_index(b: Bundle, width: i32, height: i32) -> int {
    (setup(b, width, height).len() + 2 * attribute_count(b.scene) + 1) as int
}

proof fn lemma_setup_plain(b: Bundle, width: i32, height: i32)
    ensures
        forall|k: int|
            0 <= k < setup(b, width, height).len() ==> is_plain(
                #[trigger] setup(b, width, height)[k],
            ),
        setup(b, width, height)[if b.scene == Scene::Cube {
            3int
        } else {
            0int
        }] == Command::UseProgram(b.program),
        setup(b, width, height).len() >= 4,
{
    let s = setup(b, width, height);
    assert forall|k: int| 0 <= k < s.len() implies is_plain(#[trigger] s[k]) by {
        if k == 0 {
        } else if k == 1 {
        } else if k == 2 {
        } else if k == 3 {
        } else if k == 4 {
        } else if k == 5 {
        } else if k == 6 {
        } else if k == 7 {
        } else {
        }
    }
}

/// A frame draws once, the scene's whole strip. The program is bound before
/// the draw; every vertex input of the bundle is switched on just before it
/// and off right after it, which ends the frame; none is switched on after it
/// or off before it.
pub proof fn lemma_frame_draws_once(b: Bundle, width: i32, height: i32)
    requires
        b.wf(),
    ensures
        ({
            let f = frame_spec(b, width, height);
            let d = draw_index(b, width, height);
            &&& 0 <= d < f.len()
            &&& f[d] == Command::DrawStrip { count: strip_len(b.scene) }
            &&& forall|k: int| 0 <= k < f.len() && k != d ==> !(#[trigger] f[k] is DrawStrip)
            &&& exists|p: int| 0 <= p < d && #[trigger] f[p] == Command::UseProgram(b.program)
            &&& d + 1 + attribute_count(b.scene) == f.len()
            &&& forall|j: int|
                0 <= j < attribute_count(b.scene) ==> f[d - 1 - attribute_count(b.scene) + j]
                    == Command::EnableAttrib(#[trigger] attr(b, j)) && f[d + 1 + j]
                    == Command::DisableAttrib(attr(b, j))
            &&& forall|k: int| 0 <= k < f.len() && #[trigger] f[k] is EnableAttrib ==> k < d
            &&& forall|k: int| 0 <= k < f.len() && #[trigger] f[k] is DisableAttrib ==> k > d
        }),
{
    lemma_setup_plain(b, width, height);
    let f = frame_spec(b, width, height);
    let s = setup(b, width, height);
    let n = attribute_count(b.scene) as int;
    let d = draw_index(b, width, height);
    assert(f.len() == s.len() + 2 * n + 2 + n);
    assert forall|k: int| 0 <= k < f.len() implies {
        &&& (k < s.len() ==> f[k] == s[k])
        &&& (s.len() <= k < s.len() + n ==> f[k] == pointers(b)[k - s.len()])
        &&& (s.len() + n <= k < s.len() + 2 * n ==> f[k] == enables(b)[k - s.len() - n])
        &&& (k == d - 1 ==> f[k] == draw(b)[0])
        &&& (k == d ==> f[k] == draw(b)[1])
        &&& (d < k ==> f[k] == disables(b)[k - d - 1])
    } by {}
    let p = if b.scene == Scene::Cube { 3int } else { 0int };
    assert(f[p] == Command::UseProgram(b.program));
    assert forall|j: int| 0 <= j < n implies f[d - 1 - n + j] == Command::EnableAttrib(
        #[trigger] attr(b, j),
    ) && f[d + 1 + j] == Command::DisableAttrib(attr(b, j)) by {
        assert(f[d - 1 - n + j] == enables(b)[j]);
        assert(f[d + 1 + j] == disables(b)[j]);
    }
}

/// The normal matrix: the top-left 3 x 3 block of a 4 x 4 matrix, both stored
/// column by column.
pub fn normal_block<T: Copy>(m: &[T; 16]) -> (r: [T; 9])
    ensures
        forall|c: int, k: int| 0 <= c < 3 && 0 <= k < 3 ==> #[trigger] r@[3 * c + k] == m@[4 * c + k],
{
    [m[0], m[1], m[2], m[4], m[5], m[6], m[8], m[9], m[10]]
}

} // verus!
