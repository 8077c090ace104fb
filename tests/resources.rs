use hello_gl::geometry::{index_data, vertex_data};
use hello_gl::handles::ShaderHandle;
use hello_gl::resources::{
    BufferData, BufferRole, BuildError, Builder, Bundle, Filter, GpuObject, Phase, Reply, Request,
    TexelFormat, Usage, Wrap,
};
use hello_gl::scene::{Attribute, Scene, Stage, Uniform};
use hello_gl::texture::RgbSurface;

fn src() -> Vec<u8> {
    b"void main() {}".to_vec()
}

/// Answers every request as a working GPU would, numbering new objects from
/// `next_id` on and placing uniforms and inputs at fixed locations.
fn answer(req: &Request, next_id: &mut u32) -> Reply {
    match req {
        Request::ReadSource(_) => Reply::Source(src()),
        Request::CreateShader(_)
        | Request::CreateProgram
        | Request::CreateBuffer
        | Request::CreateTexture => {
            let id = *next_id;
            *next_id += 1;
            Reply::Created(id)
        }
        Request::CompileShader { .. } | Request::LinkProgram { .. } => {
            Reply::Status { ok: true, log: String::new() }
        }
        Request::UniformLocation { uniform, .. } => Reply::Location(match uniform {
            Uniform::ModelView | Uniform::FadeFactor => 0,
            Uniform::ModelViewProjection | Uniform::Texture0 => 4,
            Uniform::Normal | Uniform::Texture1 => 8,
        }),
        Request::AttributeLocation { attribute, .. } => Reply::Location(match attribute {
            Attribute::InPosition | Attribute::Position => 0,
            Attribute::InColor => 1,
            Attribute::InNormal => 2,
        }),
        Request::UploadBuffer { .. } | Request::UploadTexture { .. } => Reply::Uploaded,
        Request::LoadImage { .. } => Reply::Image(RgbSurface {
            width: 2,
            height: 2,
            pitch: 8,
            pixels: vec![255, 0, 0, 255, 0, 0, 0, 0, 255, 0, 0, 255, 0, 0, 0, 0],
        }),
        Request::Finished | Request::Abandoned => panic!("nothing left to answer"),
    }
}

fn build(scene: Scene, first: u32) -> Bundle {
    let mut b = Builder::new(scene);
    let mut next_id = first;
    let mut steps = 0;
    loop {
        let req = b.request();
        if matches!(req, Request::Finished) {
            break;
        }
        let reply = answer(&req, &mut next_id);
        b.step(reply).unwrap();
        steps += 1;
        assert!(steps < 100);
    }
    b.finish().unwrap()
}

#[test]
fn cube_construction_runs_in_order() {
    let mut b = Builder::new(Scene::Cube);
    assert!(matches!(b.request(), Request::ReadSource(Stage::Vertex)));
    b.step(Reply::Source(b"vertex".to_vec())).unwrap();
    assert!(matches!(b.request(), Request::CreateShader(Stage::Vertex)));
    b.step(Reply::Created(7)).unwrap();
    match b.request() {
        Request::CompileShader { shader, stage, source } => {
            assert_eq!((shader, stage), (ShaderHandle(7), Stage::Vertex));
            assert_eq!(source, b"vertex".to_vec());
        }
        _ => panic!("compile expected"),
    }
    b.step(Reply::Status { ok: true, log: String::new() }).unwrap();
    assert!(matches!(b.request(), Request::ReadSource(Stage::Fragment)));
    b.step(Reply::Source(b"fragment".to_vec())).unwrap();
    assert!(matches!(b.request(), Request::CreateShader(Stage::Fragment)));
    b.step(Reply::Created(8)).unwrap();
    b.step(Reply::Status { ok: true, log: String::new() }).unwrap();
    assert!(matches!(b.request(), Request::CreateProgram));
    b.step(Reply::Created(9)).unwrap();
    match b.request() {
        Request::LinkProgram { program, vertex, fragment } => {
            assert_eq!((program.0, vertex.0, fragment.0), (9, 7, 8));
        }
        _ => panic!("link expected"),
    }
    b.step(Reply::Status { ok: true, log: String::new() }).unwrap();
    for (u, l) in [(Uniform::ModelView, 3), (Uniform::ModelViewProjection, 1), (Uniform::Normal, 2)] {
        match b.request() {
            Request::UniformLocation { uniform, .. } => assert_eq!(uniform, u),
            _ => panic!("uniform lookup expected"),
        }
        b.step(Reply::Location(l)).unwrap();
    }
    for (a, l) in [(Attribute::InPosition, 0), (Attribute::InColor, 5), (Attribute::InNormal, 6)] {
        match b.request() {
            Request::AttributeLocation { attribute, .. } => assert_eq!(attribute, a),
            _ => panic!("input lookup expected"),
        }
        b.step(Reply::Location(l)).unwrap();
    }
    assert!(matches!(b.request(), Request::CreateBuffer));
    b.step(Reply::Created(11)).unwrap();
    match b.request() {
        Request::UploadBuffer { buffer, role, usage, data } => {
            assert_eq!((buffer.0, role, usage), (11, BufferRole::Vertices, Usage::StaticDraw));
            match data {
                BufferData::Vertices(v) => assert_eq!(v, vertex_data(Scene::Cube)),
                _ => panic!("vertex data expected"),
            }
        }
        _ => panic!("upload expected"),
    }
    b.step(Reply::Uploaded).unwrap();
    b.step(Reply::Created(12)).unwrap();
    match b.request() {
        Request::UploadBuffer { buffer, role, usage, data } => {
            assert_eq!((buffer.0, role, usage), (12, BufferRole::Indices, Usage::StaticDraw));
            match data {
                BufferData::Indices(v) => assert_eq!(v, index_data(Scene::Cube)),
                _ => panic!("index data expected"),
            }
        }
        _ => panic!("upload expected"),
    }
    b.step(Reply::Uploaded).unwrap();
    assert!(matches!(b.request(), Request::Finished));
    let bundle = b.finish().unwrap();
    assert_eq!(bundle.program.0, 9);
    assert_eq!(bundle.vertex_buffer.0, 11);
    assert_eq!(bundle.element_buffer.0, 12);
    assert_eq!(bundle.uniforms, vec![3, 1, 2]);
    assert_eq!(bundle.attributes, vec![0, 5, 6]);
    assert!(bundle.textures.is_empty());
}

#[test]
fn two_constructions_get_distinct_handles_and_equal_locations() {
    let a = build(Scene::Cube, 1);
    let b = build(Scene::Cube, 100);
    assert_ne!(a.program, b.program);
    assert_ne!(a.vertex_buffer, b.vertex_buffer);
    assert_eq!(a.uniforms, b.uniforms);
    assert_eq!(a.attributes, b.attributes);
}

#[test]
fn invalid_glsl_fails_with_the_stage_and_its_file() {
    let mut b = Builder::new(Scene::Cube);
    b.step(Reply::Source(b"void main() { oops".to_vec())).unwrap();
    b.step(Reply::Created(1)).unwrap();
    let err = b
        .step(Reply::Status { ok: false, log: String::from("0:1: syntax error") })
        .unwrap_err();
    match err {
        BuildError::Compile { stage, log } => {
            assert_eq!(stage, Stage::Vertex);
            assert_eq!(log, "0:1: syntax error");
            assert_eq!(Scene::Cube.shader_file(stage), "cube.v.glsl");
        }
        e => panic!("compile failure expected, got {:?}", e),
    }
    assert_eq!(b.phase, Phase::Failed);
    assert!(matches!(b.request(), Request::Abandoned));
    assert!(b.finish().is_none());
}

#[test]
fn fragment_stage_failure_names_the_fragment_file() {
    let mut b = Builder::new(Scene::Quad);
    b.step(Reply::Source(src())).unwrap();
    b.step(Reply::Created(1)).unwrap();
    b.step(Reply::Status { ok: true, log: String::new() }).unwrap();
    b.step(Reply::Source(src())).unwrap();
    b.step(Reply::Created(2)).unwrap();
    match b.step(Reply::Status { ok: false, log: String::from("bad") }) {
        Err(BuildError::Compile { stage, .. }) => {
            assert_eq!(Scene::Quad.shader_file(stage), "hello-gl.f.glsl");
        }
        _ => panic!("compile failure expected"),
    }
}

#[test]
fn valid_glsl_compiles_to_a_nonzero_handle() {
    let mut b = Builder::new(Scene::Cube);
    assert!(b.step(Reply::Source(src())).is_ok());
    assert!(b.step(Reply::Created(5)).is_ok());
    assert!(b.step(Reply::Status { ok: true, log: String::new() }).is_ok());
    assert_eq!(b.vertex_shader, 5);
    assert_eq!(b.phase, Phase::ReadSource(Stage::Fragment));
}

#[test]
fn a_shader_the_gpu_cannot_make_fails_construction() {
    let mut b = Builder::new(Scene::Cube);
    b.step(Reply::Source(src())).unwrap();
    assert!(matches!(
        b.step(Reply::Created(0)),
        Err(BuildError::ResourceCreation { object: GpuObject::Shader, text: None })
    ));
    assert_eq!(b.phase, Phase::Failed);
}

#[test]
fn a_refused_shader_carries_the_gpu_error() {
    let mut b = Builder::new(Scene::Cube);
    b.step(Reply::Source(src())).unwrap();
    match b.step(Reply::NotCreated(String::from("GL error 0x505"))) {
        Err(BuildError::ResourceCreation { object, text }) => {
            assert_eq!(object, GpuObject::Shader);
            assert_eq!(text.as_deref(), Some("GL error 0x505"));
        }
        _ => panic!("creation failure expected"),
    }
}

#[test]
fn an_unreadable_shader_file_fails_before_any_shader_is_made() {
    let mut b = Builder::new(Scene::Cube);
    assert!(matches!(b.request(), Request::ReadSource(Stage::Vertex)));
    match b.step(Reply::Unreadable(String::from("not found"))) {
        Err(BuildError::ShaderUnreadable { stage, text }) => {
            assert_eq!(stage, Stage::Vertex);
            assert_eq!(text, "not found");
        }
        _ => panic!("unreadable shader expected"),
    }
    assert_eq!(b.vertex_shader, 0);
    assert!(matches!(b.request(), Request::Abandoned));
}

fn linked(scene: Scene) -> Builder {
    let mut b = Builder::new(scene);
    for r in [1, 2] {
        b.step(Reply::Source(src())).unwrap();
        b.step(Reply::Created(r)).unwrap();
        b.step(Reply::Status { ok: true, log: String::new() }).unwrap();
    }
    b.step(Reply::Created(3)).unwrap();
    b
}

#[test]
fn a_failed_link_reports_its_log() {
    let mut b = linked(Scene::Cube);
    match b.step(Reply::Status { ok: false, log: String::from("no main") }) {
        Err(BuildError::Link { log }) => assert_eq!(log, "no main"),
        _ => panic!("link failure expected"),
    }
}

#[test]
fn a_program_the_gpu_cannot_make_fails_construction() {
    let mut b = Builder::new(Scene::Cube);
    for r in [1, 2] {
        b.step(Reply::Source(src())).unwrap();
        b.step(Reply::Created(r)).unwrap();
        b.step(Reply::Status { ok: true, log: String::new() }).unwrap();
    }
    assert!(matches!(
        b.step(Reply::Created(0)),
        Err(BuildError::ResourceCreation { object: GpuObject::Program, text: None })
    ));
}

#[test]
fn a_missing_uniform_fails_construction() {
    let mut b = linked(Scene::Cube);
    b.step(Reply::Status { ok: true, log: String::new() }).unwrap();
    b.step(Reply::Location(0)).unwrap();
    assert!(matches!(
        b.step(Reply::Location(-1)),
        Err(BuildError::MissingUniform(Uniform::ModelViewProjection))
    ));
}

#[test]
fn a_missing_input_fails_construction() {
    let mut b = linked(Scene::Quad);
    b.step(Reply::Status { ok: true, log: String::new() }).unwrap();
    for l in [0, 1, 2] {
        b.step(Reply::Location(l)).unwrap();
    }
    assert!(matches!(
        b.step(Reply::Location(-1)),
        Err(BuildError::MissingAttribute(Attribute::Position))
    ));
}

#[test]
fn a_buffer_the_gpu_cannot_make_fails_construction() {
    let mut b = linked(Scene::Quad);
    b.step(Reply::Status { ok: true, log: String::new() }).unwrap();
    for l in [0, 1, 2, 3] {
        b.step(Reply::Location(l)).unwrap();
    }
    assert!(matches!(
        b.step(Reply::Created(0)),
        Err(BuildError::ResourceCreation { object: GpuObject::Buffer, text: None })
    ));
}

fn buffered_quad() -> Builder {
    let mut b = linked(Scene::Quad);
    b.step(Reply::Status { ok: true, log: String::new() }).unwrap();
    for l in [0, 1, 2, 3] {
        b.step(Reply::Location(l)).unwrap();
    }
    for id in [4, 5] {
        b.step(Reply::Created(id)).unwrap();
        b.step(Reply::Uploaded).unwrap();
    }
    b
}

#[test]
fn quad_construction_loads_two_textures() {
    let mut b = buffered_quad();
    for k in 0..2usize {
        match b.request() {
            Request::LoadImage { image } => {
                assert_eq!(image, k);
                assert_eq!(Scene::Quad.texture_file(image), ["hello1.bmp", "hello2.bmp"][k]);
            }
            _ => panic!("image load expected"),
        }
        b.step(Reply::Image(RgbSurface {
            width: 2,
            height: 2,
            pitch: 8,
            pixels: vec![255, 0, 0, 255, 0, 0, 0, 0, 255, 0, 0, 255, 0, 0, 0, 0],
        }))
        .unwrap();
        assert!(matches!(b.request(), Request::CreateTexture));
        b.step(Reply::Created(20 + k as u32)).unwrap();
        match b.request() {
            Request::UploadTexture { texture, width, height, pixels, level, format, filter, wrap } => {
                assert_eq!((texture.0, width, height), (20 + k as u32, 2, 2));
                assert_eq!(level, 0);
                assert_eq!(format, TexelFormat::Rgb8);
                assert_eq!(filter, Filter::Linear);
                assert_eq!(wrap, Wrap::ClampToEdge);
                assert_eq!(pixels, vec![255, 0, 0, 255, 0, 0, 255, 0, 0, 255, 0, 0]);
            }
            _ => panic!("texture upload expected"),
        }
        b.step(Reply::Uploaded).unwrap();
    }
    assert!(matches!(b.request(), Request::Finished));
    let bundle = b.finish().unwrap();
    assert_eq!(bundle.textures.iter().map(|t| t.0).collect::<Vec<_>>(), vec![20, 21]);
    assert_eq!(bundle.attributes, vec![3]);
}

#[test]
fn image_failures_name_the_texture() {
    let mut b = buffered_quad();
    match b.step(Reply::Unreadable(String::from("no such file"))) {
        Err(BuildError::ImageUnreadable { image, text }) => {
            assert_eq!(image, 0);
            assert_eq!(text, "no such file");
        }
        _ => panic!("unreadable image expected"),
    }
    let mut b = buffered_quad();
    match b.step(Reply::Unconvertible(String::from("bad format"))) {
        Err(BuildError::FormatConversion { image, text }) => {
            assert_eq!(image, 0);
            assert_eq!(text, "bad format");
        }
        _ => panic!("conversion failure expected"),
    }
    let mut b = buffered_quad();
    let short = RgbSurface { width: 2, height: 2, pitch: 8, pixels: vec![0; 10] };
    assert!(matches!(b.step(Reply::Image(short)), Err(BuildError::ImageLayout { image: 0 })));
}

#[test]
fn a_texture_the_gpu_cannot_make_fails_construction() {
    let mut b = buffered_quad();
    b.step(Reply::Image(RgbSurface { width: 1, height: 1, pitch: 4, pixels: vec![1, 2, 3, 0] }))
        .unwrap();
    assert!(matches!(
        b.step(Reply::Created(0)),
        Err(BuildError::ResourceCreation { object: GpuObject::Texture, text: None })
    ));
}

#[test]
fn replies_that_do_not_answer_the_request_are_ignored() {
    let mut b = Builder::new(Scene::Cube);
    assert!(b.step(Reply::Uploaded).is_ok());
    assert!(b.step(Reply::Location(-1)).is_ok());
    assert_eq!(b.phase, Phase::ReadSource(Stage::Vertex));
}

#[test]
fn glsl_names_match_the_shaders() {
    assert_eq!(Uniform::ModelView.glsl_name(), "modelviewMatrix");
    assert_eq!(Uniform::ModelViewProjection.glsl_name(), "modelviewprojectionMatrix");
    assert_eq!(Uniform::Normal.glsl_name(), "normalMatrix");
    assert_eq!(Uniform::FadeFactor.glsl_name(), "fade_factor");
    assert_eq!(Uniform::Texture0.glsl_name(), "textures[0]");
    assert_eq!(Uniform::Texture1.glsl_name(), "textures[1]");
    assert_eq!(Attribute::InPosition.glsl_name(), "in_position");
    assert_eq!(Attribute::InColor.glsl_name(), "in_color");
    assert_eq!(Attribute::InNormal.glsl_name(), "in_normal");
    assert_eq!(Attribute::Position.glsl_name(), "position");
}

/// What a request asks, without the numbers of the objects it names.
fn without_handles(req: &Request) -> String {
    match req {
        Request::ReadSource(stage) => format!("read {:?}", stage),
        Request::CreateShader(stage) => format!("create shader {:?}", stage),
        Request::CompileShader { stage, source, .. } => format!("compile {:?} {:?}", stage, source),
        Request::CreateProgram => String::from("create program"),
        Request::LinkProgram { .. } => String::from("link"),
        Request::UniformLocation { uniform, .. } => format!("uniform {:?}", uniform),
        Request::AttributeLocation { attribute, .. } => format!("input {:?}", attribute),
        Request::CreateBuffer => String::from("create buffer"),
        Request::UploadBuffer { role, usage, data, .. } => {
            format!("upload {:?} {:?} {:?}", role, usage, data)
        }
        Request::LoadImage { image } => format!("load {}", image),
        Request::CreateTexture => String::from("create texture"),
        Request::UploadTexture { width, height, pixels, level, format, filter, wrap, .. } => {
            format!("texture {} {} {:?} {} {:?} {:?} {:?}", width, height, pixels, level, format, filter, wrap)
        }
        Request::Finished => String::from("finished"),
        Request::Abandoned => String::from("abandoned"),
    }
}

fn requests_of(scene: Scene, first: u32) -> Vec<String> {
    let mut b = Builder::new(scene);
    let mut next_id = first;
    let mut asked = Vec::new();
    loop {
        let req = b.request();
        asked.push(without_handles(&req));
        if matches!(req, Request::Finished) {
            break;
        }
        let reply = answer(&req, &mut next_id);
        b.step(reply).unwrap();
        assert!(asked.len() < 100);
    }
    asked
}

#[test]
fn two_constructions_ask_for_the_same_things_in_the_same_order() {
    assert_eq!(requests_of(Scene::Cube, 1), requests_of(Scene::Cube, 50));
    assert_eq!(requests_of(Scene::Quad, 1), requests_of(Scene::Quad, 50));
    assert_eq!(requests_of(Scene::Cube, 1)[0], "read Vertex");
}
