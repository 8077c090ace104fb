use vstd::prelude::*;

verus! {

/// The two scenes the program can draw.
#[derive(Clone, Copy, Debug, PartialEq, Eq, Structural)]
pub enum Scene {
    /// A shaded cube turning in front of the camera, coloured per vertex.
    Cube,
    /// A quad that cross-fades between two textures.
    Quad,
}

/// A shader stage.
#[derive(Clone, Copy, Debug, PartialEq, Eq, Structural)]
pub enum Stage {
    Vertex,
    Fragment,
}

/// A uniform that a scene's program reads.
#[derive(Clone, Copy, Debug, PartialEq, Eq, Structural)]
pub enum Uniform {
    ModelView,
    ModelViewProjection,
    Normal,
    FadeFactor,
    Texture0,
    Texture1,
}

/// A per-vertex input that a scene's program reads.
#[derive(Clone, Copy, Debug, PartialEq, Eq, Structural)]
pub enum Attribute {
    InPosition,
    InColor,
    InNormal,
    Position,
}

/// Every scene's program has three uniforms.
pub const UNIFORM_COUNT: usize = 3;

/// Uniform `k` of the scene's location table.
pub open spec fn uniform_at(scene: Scene, k: int) -> Uniform {
    match scene {
        Scene::Cube => if k == 0 {
            Uniform::ModelView
        } else if k == 1 {
            Uniform::ModelViewProjection
        } else {
            Uniform::Normal
        },
        Scene::Quad => if k == 0 {
            Uniform::FadeFactor
        } else if k == 1 {
            Uniform::Texture0
        } else {
            Uniform::Texture1
        },
    }
}

/// How many vertex inputs the scene's program reads.
pub open spec fn attribute_count(scene: Scene) -> nat {
    match scene {
        Scene::Cube => 3,
        Scene::Quad => 1,
    }
}

/// Vertex input `k` of the scene's location table.
pub open spec fn attribute_at(scene: Scene, k: int) -> Attribute {
    match scene {
        Scene::Cube => if k == 0 {
            Attribute::InPosition
        } else if k == 1 {
            Attribute::InColor
        } else {
            Attribute::InNormal
        },
        Scene::Quad => Attribute::Position,
    }
}

/// How many textures the scene draws with.
pub open spec fn texture_count(scene: Scene) -> nat {
    match scene {
        Scene::Cube => 0,
        Scene::Quad => 2,
    }
}

/// The name of the file that holds the scene's source for a stage.
pub open spec fn shader_file_of(scene: Scene, stage: Stage) -> Seq<char> {
    match (scene, stage) {
        (Scene::Cube, Stage::Vertex) => "cube.v.glsl"@,
        (Scene::Cube, Stage::Fragment) => "cube.f.glsl"@,
        (Scene::Quad, Stage::Vertex) => "hello-gl.v.glsl"@,
        (Scene::Quad, Stage::Fragment) => "hello-gl.f.glsl"@,
    }
}

/// The name of the bitmap file of the quad's texture `k`.
pub open spec fn texture_file_of(k: int) -> Seq<char> {
    if k == 0 {
        "hello1.bmp"@
    } else {
        "hello2.bmp"@
    }
}

/// The name a uniform has in the shader source.
pub open spec fn uniform_name(u: Uniform) -> Seq<char> {
    match u {
        Uniform::ModelView => "modelviewMatrix"@,
        Uniform::ModelViewProjection => "modelviewprojectionMatrix"@,
        Uniform::Normal => "normalMatrix"@,
        Uniform::FadeFactor => "fade_factor"@,
        Uniform::Texture0 => "textures[0]"@,
        Uniform::Texture1 => "textures[1]"@,
    }
}

/// The name a vertex input has in the shader source.
pub open spec fn attribute_name(a: Attribute) -> Seq<char> {
    match a {
        Attribute::InPosition => "in_position"@,
        Attribute::InColor => "in_color"@,
        Attribute::InNormal => "in_normal"@,
        Attribute::Position => "position"@,
    }
}

impl Scene {
    pub fn uniform(self, k: usize) -> (r: Uniform)
        requires
            k < UNIFORM_COUNT,
        ensures
            r == uniform_at(self, k as int),
    {
        match self {
            Scene::Cube => if k == 0 {
                Uniform::ModelView
            } else if k == 1 {
                Uniform::ModelViewProjection
            } else {
                Uniform::Normal
            },
            Scene::Quad => if k == 0 {
                Uniform::FadeFactor
            } else if k == 1 {
                Uniform::Texture0
            } else {
                Uniform::Texture1
            },
        }
    }

    pub fn attribute_count(self) -> (r: usize)
        ensures
            r == attribute_count(self),
    {
        match self {
            Scene::Cube => 3,
            Scene::Quad => 1,
        }
    }

    pub fn attribute(self, k: usize) -> (r: Attribute)
        requires
            k < attribute_count(self),
        ensures
            r == attribute_at(self, k as int),
    {
        match self {
            Scene::Cube => if k == 0 {
                Attribute::InPosition
            } else if k == 1 {
                Attribute::InColor
            } else {
                Attribute::InNormal
            },
            Scene::Quad => Attribute::Position,
        }
    }

    pub fn texture_count(self) -> (r: usize)
        ensures
            r == texture_count(self),
    {
        match self {
            Scene::Cube => 0,
            Scene::Quad => 2,
        }
    }

    /// The file that holds the GLSL source of the given stage.
    pub fn shader_file(self, stage: Stage) -> (r: &'static str)
        ensures
            r@ == shader_file_of(self, stage),
    {
        match (self, stage) {
            (Scene::Cube, Stage::Vertex) => "cube.v.glsl",
            (Scene::Cube, Stage::Fragment) => "cube.f.glsl",
            (Scene::Quad, Stage::Vertex) => "hello-gl.v.glsl",
            (Scene::Quad, Stage::Fragment) => "hello-gl.f.glsl",
        }
    }

    /// The bitmap file of texture `k`; only the quad has textures.
    pub fn texture_file(self, k: usize) -> (r: &'static str)
        ensures
            r@ == texture_file_of(k as int),
    {
        if k == 0 {
            "hello1.bmp"
        } else {
            "hello2.bmp"
        }
    }
}

impl Uniform {
    /// The name the shader source gives this uniform.
    pub fn glsl_name(self) -> (r: &'static str)
        ensures
            r@ == uniform_name(self),
    {
        match self {
            Uniform::ModelView => "modelviewMatrix",
            Uniform::ModelViewProjection => "modelviewprojectionMatrix",
            Uniform::Normal => "normalMatrix",
            Uniform::FadeFactor => "fade_factor",
            Uniform::Texture0 => "textures[0]",
            Uniform::Texture1 => "textures[1]",
        }
    }
}

impl Attribute {
    /// The name the shader source gives this input.
    pub fn glsl_name(self) -> (r: &'static str)
        ensures
            r@ == attribute_name(self),
    {
        match self {
            Attribute::InPosition => "in_position",
            Attribute::InColor => "in_color",
            Attribute::InNormal => "in_normal",
            Attribute::Position => "position",
        }
    }
}

} // verus!
