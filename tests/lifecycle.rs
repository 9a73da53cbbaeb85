use gl_renderer::{
    check_compile, check_link, BuildAction, BuildEvent, BuildStep,
    Builder, Context, ContextError, DrawCall, GlObject, Handles, Renderer, RendererError,
    ShaderStage, NO_OBJECT, VERTEX_COUNT,
};

fn current_context() -> Context {
    let mut ctx = Context::new();
    ctx.make_current().unwrap();
    ctx
}

fn compiled(handle: u32) -> BuildEvent {
    BuildEvent::ShaderCompiled { handle, compiled: true, log: String::new() }
}

fn build(ctx: &Context, vs: u32, fs: u32, program: u32, vao: u32, vbo: u32) -> BuildAction {
    let (mut b, first) = Builder::new(ctx).unwrap();
    assert!(matches!(first, BuildAction::Compile(ShaderStage::Vertex)));
    assert!(matches!(b.advance(compiled(vs)), BuildAction::Compile(ShaderStage::Fragment)));
    match b.advance(compiled(fs)) {
        BuildAction::Link { vertex, fragment } => {
            assert_eq!(vertex, vs);
            assert_eq!(fragment, fs);
        }
        other => panic!("expected a link action, got {:?}", other),
    }
    let linked = BuildEvent::ProgramLinked { handle: program, linked: true, log: String::new() };
    match b.advance(linked) {
        BuildAction::CreateObjects { program: p } => assert_eq!(p, program),
        other => panic!("expected object creation, got {:?}", other),
    }
    let action = b.advance(BuildEvent::ObjectsCreated { vao, vbo });
    assert_eq!(b.step(), BuildStep::Finished);
    action
}

fn built_renderer(ctx: &Context) -> Renderer {
    match build(ctx, 1, 2, 3, 4, 5) {
        BuildAction::Done(r) => r,
        other => panic!("expected a renderer, got {:?}", other),
    }
}

#[test]
fn make_current_twice_is_refused() {
    let mut ctx = Context::new();
    assert!(!ctx.current());
    assert_eq!(ctx.make_current(), Ok(()));
    assert!(ctx.current());
    assert_eq!(ctx.make_current(), Err(ContextError::AlreadyCurrent));
    assert!(ctx.current());
    assert_eq!(ctx.make_not_current(), Ok(()));
    assert_eq!(ctx.make_not_current(), Err(ContextError::NotCurrent));
    assert!(!ctx.current());
}

#[test]
fn stage_kinds_are_the_backend_enumerants() {
    assert_eq!(ShaderStage::Vertex.kind(), 0x8B31);
    assert_eq!(ShaderStage::Fragment.kind(), 0x8B30);
}

#[test]
fn compile_success_keeps_handle() {
    assert_eq!(check_compile(ShaderStage::Vertex, 9, true, String::new()).unwrap(), 9);
}

#[test]
fn compile_failure_reports_log_and_releases_shader() {
    let log = String::from("0:3(1): error: syntax error, unexpected '}'");
    let f = check_compile(ShaderStage::Fragment, 9, false, log.clone()).unwrap_err();
    assert_eq!(f.release, vec![GlObject::Shader(9)]);
    assert_eq!(f.error, RendererError::ShaderCompile { stage: ShaderStage::Fragment, log });
}

#[test]
fn compile_with_sentinel_handle_fails_without_release() {
    let f = check_compile(ShaderStage::Vertex, NO_OBJECT, true, String::from("no object")).unwrap_err();
    assert!(f.release.is_empty());
    assert!(matches!(f.error, RendererError::ShaderCompile { stage: ShaderStage::Vertex, .. }));
}

#[test]
fn link_failure_reports_log_and_releases_program() {
    let log = String::from("error: fragment shader input `v_color' not written by vertex shader");
    let f = check_link(11, false, log.clone()).unwrap_err();
    assert_eq!(f.release, vec![GlObject::Program(11)]);
    assert_eq!(f.error, RendererError::ProgramLink { log });
    assert_eq!(check_link(11, true, String::new()).unwrap(), 11);
}

#[test]
fn builder_needs_current_context() {
    let ctx = Context::new();
    assert_eq!(Builder::new(&ctx).err(), Some(ContextError::NotCurrent));
}

#[test]
fn construction_yields_five_allocated_handles() {
    let ctx = current_context();
    let r = built_renderer(&ctx);
    assert!(r.is_live());
    let draw = r.render(&ctx).unwrap();
    assert_eq!(draw, DrawCall { program: 3, vao: 4, vbo: 5, mode: 0x0004, first: 0, count: 3 });
    assert_eq!(VERTEX_COUNT, 3);
}

#[test]
fn two_constructions_keep_their_own_handles() {
    let ctx = current_context();
    let a = built_renderer(&ctx);
    let b = match build(&ctx, 6, 7, 8, 9, 10) {
        BuildAction::Done(r) => r,
        other => panic!("expected a renderer, got {:?}", other),
    };
    assert_eq!(a.render(&ctx).unwrap().program, 3);
    assert_eq!(b.render(&ctx).unwrap().program, 8);
    assert_eq!(b.render(&ctx).unwrap().vbo, 10);
}

#[test]
fn vertex_failure_releases_vertex_shader() {
    let ctx = current_context();
    let (mut b, _) = Builder::new(&ctx).unwrap();
    let ev = BuildEvent::ShaderCompiled { handle: 1, compiled: false, log: String::from("bad") };
    match b.advance(ev) {
        BuildAction::Abort(f) => {
            assert_eq!(f.release, vec![GlObject::Shader(1)]);
            assert_eq!(
                f.error,
                RendererError::ShaderCompile { stage: ShaderStage::Vertex, log: String::from("bad") }
            );
        }
        other => panic!("expected abort, got {:?}", other),
    }
    assert_eq!(b.step(), BuildStep::Finished);
    assert!(!b.accepts(&compiled(2)));
}

#[test]
fn fragment_failure_releases_both_shaders() {
    let ctx = current_context();
    let (mut b, _) = Builder::new(&ctx).unwrap();
    b.advance(compiled(1));
    let ev = BuildEvent::ShaderCompiled { handle: 2, compiled: false, log: String::from("bad") };
    match b.advance(ev) {
        BuildAction::Abort(f) => {
            assert_eq!(f.release, vec![GlObject::Shader(2), GlObject::Shader(1)]);
            assert!(matches!(f.error, RendererError::ShaderCompile { stage: ShaderStage::Fragment, .. }));
        }
        other => panic!("expected abort, got {:?}", other),
    }
}

#[test]
fn link_failure_releases_program_and_shaders() {
    let ctx = current_context();
    let (mut b, _) = Builder::new(&ctx).unwrap();
    b.advance(compiled(1));
    b.advance(compiled(2));
    assert!(b.accepts(&BuildEvent::ProgramLinked { handle: 3, linked: false, log: String::new() }));
    let ev = BuildEvent::ProgramLinked { handle: 3, linked: false, log: String::from("mismatch") };
    match b.advance(ev) {
        BuildAction::Abort(f) => {
            assert_eq!(
                f.release,
                vec![GlObject::Program(3), GlObject::Shader(1), GlObject::Shader(2)]
            );
            assert_eq!(f.error, RendererError::ProgramLink { log: String::from("mismatch") });
        }
        other => panic!("expected abort, got {:?}", other),
    }
}

#[test]
fn missing_buffer_releases_everything_allocated() {
    let ctx = current_context();
    match build(&ctx, 1, 2, 3, 4, NO_OBJECT) {
        BuildAction::Abort(f) => {
            assert_eq!(
                f.release,
                vec![
                    GlObject::VertexArray(4),
                    GlObject::Program(3),
                    GlObject::Shader(1),
                    GlObject::Shader(2)
                ]
            );
            assert_eq!(f.error, RendererError::ObjectAllocation);
        }
        other => panic!("expected abort, got {:?}", other),
    }
}

#[test]
fn destroy_releases_each_object_once() {
    let ctx = current_context();
    let mut r = built_renderer(&ctx);
    let released = r.destroy(&ctx);
    assert_eq!(
        released,
        vec![
            GlObject::Program(3),
            GlObject::Shader(1),
            GlObject::Shader(2),
            GlObject::Buffer(5),
            GlObject::VertexArray(4)
        ]
    );
    assert!(!r.is_live());
    assert!(r.destroy(&ctx).is_empty());
    assert_eq!(r.render(&ctx), None);
}

#[test]
fn methods_without_current_context_keep_handles() {
    let mut ctx = current_context();
    let mut r = built_renderer(&ctx);
    ctx.make_not_current().unwrap();
    assert_eq!(r.render(&ctx), None);
    assert!(r.destroy(&ctx).is_empty());
    assert!(r.is_live());
    ctx.make_current().unwrap();
    assert_eq!(r.render(&ctx).unwrap().vao, 4);
    assert_eq!(r.destroy(&ctx).len(), 5);
}

#[test]
fn renderer_new_rejects_sentinel() {
    let h = Handles { program: 1, vert_shader: 2, frag_shader: 3, vao: 0, vbo: 5 };
    assert!(Renderer::new(h).is_none());
    let h = Handles { program: 1, vert_shader: 2, frag_shader: 3, vao: 4, vbo: 5 };
    assert!(Renderer::new(h).is_some());
    assert_eq!(GlObject::Buffer(7).handle(), 7);
}
