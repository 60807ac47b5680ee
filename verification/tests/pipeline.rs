use render_core::device::TextureKind;
use render_core::{
    link, Command, CompositeRenderPipeline, Framebuffer, GlError, ModelHandles, RenderPipeline, Scene,
    ShaderCodeBundle, ShaderProgram, TextureLink, VertexOffsets, View2DRenderPipeline,
};

fn quad(base: u32) -> ModelHandles {
    ModelHandles {
        vertex_array: base,
        vertex_buffer: base + 1,
        element_buffer: base + 2,
        transform_buffer: base + 3,
        command_buffer: 0,
    }
}

fn offsets() -> VertexOffsets {
    VertexOffsets { position: 0, normal: 12, tex_coord: 24, tangent: 32, bitangent: 44 }
}

fn forward(id: u32, texture: u32, render_buffer: u32) -> View2DRenderPipeline {
    let mut queue = Vec::new();
    let pending =
        View2DRenderPipeline::prepare(id, 800, 600, texture, render_buffer, quad(100 * id), offsets(), &mut queue);
    View2DRenderPipeline::new(pending, gl::FRAMEBUFFER_COMPLETE, &mut queue).unwrap()
}

fn composite(id: u32, textures: &Vec<u32>, program: u32) -> CompositeRenderPipeline {
    let mut queue = Vec::new();
    let program = ShaderProgram::new(&ShaderCodeBundle::default(), &Vec::new(), program, 1, String::new(), &mut queue)
        .unwrap();
    let pending = Framebuffer::new(id, 800, 600, textures, None, quad(100 * id), offsets(), &mut queue);
    CompositeRenderPipeline::new(pending, gl::FRAMEBUFFER_COMPLETE, program, &mut queue).unwrap()
}

#[test]
fn composite_pass_draws_its_inputs() {
    let mut queue = Vec::new();
    let a = forward(5, 31, 41);
    let mut b = composite(6, &vec![32], 9);
    assert!(link(&a, &mut b).is_ok());
    assert_eq!(b.get_framebuffer().get_inputs(), &vec![TextureLink { id: 31 }]);
    assert_eq!(b.get_program().get_id(), 9);
    b.bind(&mut queue);
    assert_eq!(
        queue,
        vec![
            Command::Viewport { width: 800, height: 600 },
            Command::BindFramebuffer { framebuffer: 6 },
            Command::ClearDepth,
        ]
    );
    queue.clear();
    assert!(b.draw(&mut queue).is_ok());
    assert_eq!(
        queue[..7].to_vec(),
        vec![
            Command::BindFramebuffer { framebuffer: 6 },
            Command::UseProgram { program: 9 },
            Command::BindVertexArray { vertex_array: 600 },
            Command::BindTextureUnit { unit: 0, texture: 31 },
            Command::MaterialSampler { program: 9, kind: TextureKind::Diffuse, slot: 0 },
            Command::MaterialCount { program: 9, kind: TextureKind::Diffuse, count: 1 },
            Command::MaterialCount { program: 9, kind: TextureKind::Specular, count: 0 },
        ]
    );
    assert_eq!(
        queue[queue.len() - 3..].to_vec(),
        vec![
            Command::DrawElementsInstanced { count: 6, byte_offset: 0, instances: 1 },
            Command::ResetActiveTexture,
            Command::BindVertexArray { vertex_array: 0 },
        ]
    );
}

#[test]
fn composite_pass_combines_several_producers() {
    let a = forward(5, 31, 41);
    let c = composite(7, &vec![33, 34], 8);
    let mut b = composite(6, &vec![32], 9);
    link(&a, &mut b).unwrap();
    link(&c, &mut b).unwrap();
    assert_eq!(
        b.get_framebuffer().get_inputs(),
        &vec![TextureLink { id: 31 }, TextureLink { id: 33 }, TextureLink { id: 34 }]
    );
    assert_eq!(b.get_link().unwrap(), vec![TextureLink { id: 32 }]);
    b.unlink();
    assert!(b.get_framebuffer().get_inputs().is_empty());
    link(&c, &mut b).unwrap();
    assert_eq!(b.get_framebuffer().get_inputs(), &vec![TextureLink { id: 33 }, TextureLink { id: 34 }]);
}

#[test]
fn composite_pass_resizes_what_it_renders_into() {
    let mut queue = Vec::new();
    let mut c = composite(7, &vec![33, 34], 8);
    let mut b = composite(6, &vec![32], 9);
    link(&c, &mut b).unwrap();
    c.set_size(1024, 768, &mut queue).unwrap();
    assert_eq!(c.get_height(), (1024, 768));
    assert_eq!(c.get_framebuffer().get_attachment_size(0), Some((1024, 768)));
    assert_eq!(c.get_framebuffer().get_attachment_size(1), Some((1024, 768)));
    assert_eq!(b.get_framebuffer().get_inputs(), &c.get_link().unwrap());
    assert_eq!(queue.len(), 6);
    assert_eq!(b.get_height(), (800, 600));
}

#[test]
fn composite_pass_with_incomplete_target_fails() {
    let mut queue = Vec::new();
    let program = ShaderProgram::new(&ShaderCodeBundle::default(), &Vec::new(), 9, 1, String::new(), &mut queue)
        .unwrap();
    let pending = Framebuffer::new(6, 800, 600, &vec![32], None, quad(600), offsets(), &mut queue);
    let requested = queue.len();
    assert!(matches!(
        CompositeRenderPipeline::new(pending, gl::FRAMEBUFFER_UNSUPPORTED, program, &mut queue),
        Err(GlError::FramebufferNotComplete(6))
    ));
    assert_eq!(queue.len(), requested);
}

fn resize_all(passes: &mut [&mut dyn Resize], width: i32, height: i32) -> Vec<Command> {
    let mut queue = Vec::new();
    for pass in passes.iter_mut() {
        pass.resize(width, height, &mut queue);
    }
    queue
}

trait Resize {
    fn resize(&mut self, width: i32, height: i32, queue: &mut Vec<Command>);
}

impl Resize for View2DRenderPipeline {
    fn resize(&mut self, width: i32, height: i32, queue: &mut Vec<Command>) {
        self.set_size(width, height, queue).unwrap();
    }
}

impl Resize for CompositeRenderPipeline {
    fn resize(&mut self, width: i32, height: i32, queue: &mut Vec<Command>) {
        self.set_size(width, height, queue).unwrap();
    }
}

#[test]
fn resize_fans_out_over_a_chain_of_passes() {
    let mut a = forward(5, 31, 41);
    let mut b = composite(6, &vec![32], 9);
    link(&a, &mut b).unwrap();
    let queue = resize_all(&mut [&mut a, &mut b], 1024, 768);
    assert_eq!(a.get_height(), (1024, 768));
    assert_eq!(b.get_height(), (1024, 768));
    assert_eq!(a.get_attachment_size(0), Some((1024, 768)));
    assert_eq!(b.get_framebuffer().get_attachment_size(0), Some((1024, 768)));
    assert_eq!(b.get_framebuffer().get_inputs()[0].id, a.get_framebuffer().get(0).unwrap().id);
    assert_eq!(
        queue,
        vec![
            Command::BindTexture { target: gl::TEXTURE_2D, texture: 31 },
            Command::TexImage2D { target: gl::TEXTURE_2D, width: 1024, height: 768 },
            Command::BindTexture { target: gl::TEXTURE_2D, texture: 0 },
            Command::NamedRenderbufferStorage { render_buffer: 41, width: 1024, height: 768 },
            Command::BindTexture { target: gl::TEXTURE_2D, texture: 32 },
            Command::TexImage2D { target: gl::TEXTURE_2D, width: 1024, height: 768 },
            Command::BindTexture { target: gl::TEXTURE_2D, texture: 0 },
        ]
    );
}

struct TwoPasses {
    view: View2DRenderPipeline,
    screen: CompositeRenderPipeline,
}

impl Scene for TwoPasses {
    fn set_size(&mut self, width: i32, height: i32, queue: &mut Vec<Command>) -> Result<(), GlError> {
        self.view.set_size(width, height, queue)?;
        self.screen.set_size(width, height, queue)
    }

    fn draw(&mut self, queue: &mut Vec<Command>) -> Result<(), GlError> {
        self.view.bind(queue);
        self.view.draw(queue)?;
        self.screen.bind(queue);
        self.screen.draw(queue)
    }
}

#[test]
fn scene_of_two_passes_draws_producer_first() {
    let view = forward(5, 31, 41);
    let mut screen = composite(6, &vec![32], 9);
    link(&view, &mut screen).unwrap();
    let mut scene = TwoPasses { view, screen };
    let mut queue = Vec::new();
    scene.set_size(640, 480, &mut queue).unwrap();
    assert_eq!(scene.view.get_height(), (640, 480));
    assert_eq!(scene.screen.get_height(), (640, 480));
    queue.clear();
    scene.draw(&mut queue).unwrap();
    let binds: Vec<u32> = queue
        .iter()
        .filter_map(|c| match c {
            Command::BindFramebuffer { framebuffer } => Some(*framebuffer),
            _ => None,
        })
        .collect();
    assert_eq!(binds, vec![5, 6, 6]);
    assert_eq!(queue[0], Command::Viewport { width: 640, height: 480 });
    assert!(queue.contains(&Command::BindTextureUnit { unit: 0, texture: 31 }));
}
