use render_core::{
    Command, Framebuffer, GlError, ModelHandles, RenderPipeline, ShaderCodeBundle, ShaderProgram,
    TextureLink, VertexOffsets, View2DRenderPipeline,
};

fn quad(base: u32) -> ModelHandles {
    ModelHandles {
        vertex_array: base,
        vertex_buffer: base + 1,
        element_buffer: base + 2,
        transform_buffer: base + 3,
        command_buffer: 0,
    }
}

fn offsets() -> VertexOffsets {
    VertexOffsets { position: 0, normal: 12, tex_coord: 24, tangent: 32, bitangent: 44 }
}

fn target(id: u32, textures: &Vec<u32>, render_buffer: Option<u32>) -> Framebuffer {
    let mut queue = Vec::new();
    Framebuffer::new(id, 800, 600, textures, render_buffer, quad(100 * id), offsets(), &mut queue)
        .finish(gl::FRAMEBUFFER_COMPLETE, &mut queue)
        .unwrap()
}

fn pass(id: u32, texture: u32, render_buffer: u32) -> View2DRenderPipeline {
    let mut queue = Vec::new();
    let pending =
        View2DRenderPipeline::prepare(id, 800, 600, texture, render_buffer, quad(100 * id), offsets(), &mut queue);
    View2DRenderPipeline::new(pending, gl::FRAMEBUFFER_COMPLETE, &mut queue).unwrap()
}

#[test]
fn render_target_with_two_attachments_and_depth() {
    let mut queue = Vec::new();
    let pending =
        Framebuffer::new(5, 800, 600, &vec![31, 32], Some(41), quad(100), offsets(), &mut queue);
    let requested = queue.len();
    let framebuffer = pending.finish(gl::FRAMEBUFFER_COMPLETE, &mut queue).unwrap();
    assert!(framebuffer.check_status(gl::FRAMEBUFFER_COMPLETE).is_ok());
    assert_eq!(framebuffer.len(), 2);
    assert_eq!(framebuffer.get_size(), (800, 600));
    assert_eq!(framebuffer.get_link(), vec![TextureLink { id: 31 }, TextureLink { id: 32 }]);
    assert_eq!(framebuffer.get_attachment_size(0), Some((800, 600)));
    assert_eq!(framebuffer.get_attachment_size(1), Some((800, 600)));
    assert_eq!(framebuffer.get_attachment_size(2), None);
    assert_eq!(framebuffer.get_draw_buffers(), &vec![gl::COLOR_ATTACHMENT0, gl::COLOR_ATTACHMENT1]);
    let render_buffer = framebuffer.get_render_buffer().as_ref().unwrap();
    assert_eq!(render_buffer.get_id(), 41);
    assert_eq!(render_buffer.get_size(), (800, 600));
    assert!(framebuffer.get_inputs().is_empty());
    // the quad comes first, then everything happens with the framebuffer bound
    let bound = queue.iter().position(|c| *c == Command::BindFramebuffer { framebuffer: 5 }).unwrap();
    assert_eq!(
        queue[bound + 1..requested].to_vec(),
        vec![
            Command::BindTexture { target: gl::TEXTURE_2D, texture: 31 },
            Command::TexImage2D { target: gl::TEXTURE_2D, width: 800, height: 600 },
            Command::BindTexture { target: gl::TEXTURE_2D, texture: 0 },
            Command::TextureParameter {
                texture: 31,
                parameter: render_core::device::TextureParameter::MinFilter,
                setting: render_core::device::TextureSetting::Nearest
            },
            Command::TextureParameter {
                texture: 31,
                parameter: render_core::device::TextureParameter::MagFilter,
                setting: render_core::device::TextureSetting::Nearest
            },
            Command::FramebufferTexture2D { attachment: gl::COLOR_ATTACHMENT0, texture: 31 },
            Command::BindTexture { target: gl::TEXTURE_2D, texture: 32 },
            Command::TexImage2D { target: gl::TEXTURE_2D, width: 800, height: 600 },
            Command::BindTexture { target: gl::TEXTURE_2D, texture: 0 },
            Command::TextureParameter {
                texture: 32,
                parameter: render_core::device::TextureParameter::MinFilter,
                setting: render_core::device::TextureSetting::Nearest
            },
            Command::TextureParameter {
                texture: 32,
                parameter: render_core::device::TextureParameter::MagFilter,
                setting: render_core::device::TextureSetting::Nearest
            },
            Command::FramebufferTexture2D { attachment: gl::COLOR_ATTACHMENT1, texture: 32 },
            Command::DrawBuffers { count: 2 },
            Command::NamedRenderbufferStorage { render_buffer: 41, width: 800, height: 600 },
            Command::FramebufferRenderbuffer { render_buffer: 41 },
        ]
    );
    assert_eq!(queue[requested..].to_vec(), vec![Command::BindFramebuffer { framebuffer: 0 }]);
}

#[test]
fn incomplete_render_target_is_not_handed_out() {
    let mut queue = Vec::new();
    let pending = Framebuffer::new(5, 800, 600, &vec![31], None, quad(100), offsets(), &mut queue);
    let before = queue.clone();
    for status in [gl::FRAMEBUFFER_INCOMPLETE_ATTACHMENT, gl::FRAMEBUFFER_UNSUPPORTED, 0] {
        let pending = Framebuffer::new(5, 800, 600, &vec![31], None, quad(100), offsets(), &mut Vec::new());
        let mut queue = Vec::new();
        assert!(matches!(pending.finish(status, &mut queue), Err(GlError::FramebufferNotComplete(5))));
        assert!(queue.is_empty());
    }
    let framebuffer = pending.finish(gl::FRAMEBUFFER_COMPLETE, &mut queue).unwrap();
    assert!(matches!(
        framebuffer.check_status(gl::FRAMEBUFFER_INCOMPLETE_MISSING_ATTACHMENT),
        Err(GlError::FramebufferNotComplete(5))
    ));
    assert_eq!(queue.len(), before.len() + 1);
}

#[test]
fn render_target_without_attachments() {
    let framebuffer = target(5, &vec![], None);
    assert_eq!(framebuffer.len(), 0);
    assert!(framebuffer.get_link().is_empty());
    assert!(framebuffer.get(0).is_none());
    assert!(framebuffer.get_render_buffer().is_none());
    assert!(framebuffer.get_draw_buffers().is_empty());
}

#[test]
fn default_render_target_has_no_handle() {
    let mut queue = Vec::new();
    let framebuffer = Framebuffer::new_default(640, 480, quad(100), offsets(), &mut queue);
    assert_eq!(framebuffer.get_size(), (640, 480));
    assert_eq!(framebuffer.len(), 0);
    framebuffer.bind(&mut queue);
    assert_eq!(queue[queue.len() - 1], Command::BindFramebuffer { framebuffer: 0 });
}

#[test]
fn attachments_can_be_added_later() {
    let mut queue = Vec::new();
    let mut framebuffer = target(5, &vec![31], None);
    framebuffer.gen_textures(&vec![32, 33], &mut queue);
    framebuffer.attach_render_buffer(41, &mut queue);
    assert_eq!(framebuffer.len(), 3);
    assert_eq!(framebuffer.get(2), Some(TextureLink { id: 33 }));
    assert_eq!(
        framebuffer.get_draw_buffers(),
        &vec![gl::COLOR_ATTACHMENT0, gl::COLOR_ATTACHMENT0 + 1, gl::COLOR_ATTACHMENT0 + 2]
    );
    assert!(queue.contains(&Command::FramebufferTexture2D { attachment: gl::COLOR_ATTACHMENT0 + 1, texture: 32 }));
    assert!(queue.contains(&Command::FramebufferTexture2D { attachment: gl::COLOR_ATTACHMENT0 + 2, texture: 33 }));
    assert!(queue.contains(&Command::DrawBuffers { count: 3 }));
    assert_eq!(framebuffer.get_render_buffer().as_ref().unwrap().get_id(), 41);
}

#[test]
fn linking_appends_and_unlink_clears() {
    let producer = target(5, &vec![31, 32], None);
    let other = target(6, &vec![33], None);
    let mut consumer = target(7, &vec![34], None);
    consumer.link_to_fb(&producer);
    assert_eq!(consumer.get_inputs(), &vec![TextureLink { id: 31 }, TextureLink { id: 32 }]);
    consumer.link_to(other.get_link());
    consumer.link_push(producer.get(1).unwrap());
    assert_eq!(
        consumer.get_inputs(),
        &vec![TextureLink { id: 31 }, TextureLink { id: 32 }, TextureLink { id: 33 }, TextureLink { id: 32 }]
    );
    assert_eq!(consumer.get_link(), vec![TextureLink { id: 34 }]);
    consumer.unlink();
    assert!(consumer.get_inputs().is_empty());
    assert_eq!(consumer.len(), 1);
}

#[test]
fn draw_samples_the_linked_inputs() {
    let mut queue = Vec::new();
    let producer = target(5, &vec![31], None);
    let mut consumer = target(7, &vec![34], None);
    consumer.link_to_fb(&producer);
    let program = ShaderProgram::new(&ShaderCodeBundle::default(), &Vec::new(), 9, 1, String::new(), &mut queue)
        .unwrap();
    consumer.draw(&program, &mut queue);
    assert_eq!(queue[0], Command::BindFramebuffer { framebuffer: 7 });
    assert_eq!(queue[1], Command::UseProgram { program: 9 });
    assert_eq!(queue[2], Command::BindVertexArray { vertex_array: 700 });
    assert_eq!(queue[3], Command::BindTextureUnit { unit: 0, texture: 31 });
    assert!(queue.contains(&Command::DrawElementsInstanced { count: 6, byte_offset: 0, instances: 1 }));
    assert_eq!(queue[queue.len() - 1], Command::BindVertexArray { vertex_array: 0 });
}

#[test]
fn resize_reaches_every_attachment() {
    let mut queue = Vec::new();
    let mut framebuffer = target(5, &vec![31, 32], Some(41));
    let links = framebuffer.get_link();
    framebuffer.set_size(1024, 768, &mut queue);
    assert_eq!(framebuffer.get_size(), (1024, 768));
    assert_eq!(framebuffer.get_attachment_size(0), Some((1024, 768)));
    assert_eq!(framebuffer.get_attachment_size(1), Some((1024, 768)));
    assert_eq!(framebuffer.get_render_buffer().as_ref().unwrap().get_size(), (1024, 768));
    assert_eq!(framebuffer.get_link(), links);
    assert_eq!(
        queue,
        vec![
            Command::BindTexture { target: gl::TEXTURE_2D, texture: 31 },
            Command::TexImage2D { target: gl::TEXTURE_2D, width: 1024, height: 768 },
            Command::BindTexture { target: gl::TEXTURE_2D, texture: 0 },
            Command::BindTexture { target: gl::TEXTURE_2D, texture: 32 },
            Command::TexImage2D { target: gl::TEXTURE_2D, width: 1024, height: 768 },
            Command::BindTexture { target: gl::TEXTURE_2D, texture: 0 },
            Command::NamedRenderbufferStorage { render_buffer: 41, width: 1024, height: 768 },
        ]
    );
}

#[test]
fn pipeline_renders_into_one_attachment_with_depth() {
    let mut queue = Vec::new();
    let pipeline = pass(5, 31, 41);
    assert_eq!(pipeline.get_height(), (800, 600));
    assert_eq!(pipeline.get_link().unwrap(), vec![TextureLink { id: 31 }]);
    assert_eq!(pipeline.get_framebuffer().len(), 1);
    assert_eq!(pipeline.get_framebuffer().get_render_buffer().as_ref().unwrap().get_id(), 41);
    pipeline.bind(&mut queue);
    assert_eq!(
        queue,
        vec![
            Command::Viewport { width: 800, height: 600 },
            Command::BindFramebuffer { framebuffer: 5 },
            Command::ClearDepth,
        ]
    );
}

#[test]
fn pipeline_with_incomplete_target_fails() {
    let mut queue = Vec::new();
    let pending = View2DRenderPipeline::prepare(5, 800, 600, 31, 41, quad(100), offsets(), &mut queue);
    let requested = queue.len();
    assert!(matches!(
        View2DRenderPipeline::new(pending, gl::FRAMEBUFFER_INCOMPLETE_ATTACHMENT, &mut queue),
        Err(GlError::FramebufferNotComplete(5))
    ));
    assert_eq!(queue.len(), requested);
}

#[test]
fn linked_pipeline_samples_the_producers_output() {
    let a = pass(5, 31, 41);
    let mut b = pass(6, 32, 42);
    b.link_to(a.get_link().unwrap()).unwrap();
    let inputs = b.get_framebuffer().get_inputs();
    assert_eq!(inputs.len(), 1);
    assert_eq!(inputs[0].id, a.get_framebuffer().get(0).unwrap().id);
    assert_eq!(inputs[0], TextureLink { id: 31 });
    // the consumer's own output is untouched
    assert_eq!(b.get_link().unwrap(), vec![TextureLink { id: 32 }]);
}

#[test]
fn pipeline_links_accumulate_until_unlinked() {
    let a = pass(5, 31, 41);
    let c = pass(7, 33, 43);
    let mut b = pass(6, 32, 42);
    b.link_to(a.get_link().unwrap()).unwrap();
    b.link_push(c.get_framebuffer().get(0).unwrap()).unwrap();
    assert_eq!(b.get_framebuffer().get_inputs(), &vec![TextureLink { id: 31 }, TextureLink { id: 33 }]);
    b.unlink();
    assert!(b.get_framebuffer().get_inputs().is_empty());
}

#[test]
fn pipeline_resize_keeps_the_links_good() {
    let mut queue = Vec::new();
    let mut a = pass(5, 31, 41);
    let mut b = pass(6, 32, 42);
    b.link_to(a.get_link().unwrap()).unwrap();
    a.set_size(1024, 768, &mut queue).unwrap();
    assert_eq!(a.get_height(), (1024, 768));
    assert_eq!(a.get_framebuffer().get_size(), (1024, 768));
    assert_eq!(a.get_attachment_size(0), Some((1024, 768)));
    assert_eq!(a.get_framebuffer().get_render_buffer().as_ref().unwrap().get_size(), (1024, 768));
    // what the consumer was linked to is still the producer's attachment
    assert_eq!(b.get_framebuffer().get_inputs(), &a.get_link().unwrap());
    assert_eq!(b.get_framebuffer().get_inputs()[0], TextureLink { id: 31 });
    assert_eq!(
        queue,
        vec![
            Command::BindTexture { target: gl::TEXTURE_2D, texture: 31 },
            Command::TexImage2D { target: gl::TEXTURE_2D, width: 1024, height: 768 },
            Command::BindTexture { target: gl::TEXTURE_2D, texture: 0 },
            Command::NamedRenderbufferStorage { render_buffer: 41, width: 1024, height: 768 },
        ]
    );
    queue.clear();
    a.bind(&mut queue);
    assert_eq!(queue[0], Command::Viewport { width: 1024, height: 768 });
    // the consumer keeps its own size until it is resized itself
    assert_eq!(b.get_height(), (800, 600));
}

#[test]
fn pipeline_draw_issues_nothing() {
    let mut queue = Vec::new();
    let mut a = pass(5, 31, 41);
    assert!(a.draw(&mut queue).is_ok());
    assert!(queue.is_empty());
}

#[test]
fn render_target_knows_its_limits() {
    let framebuffer = target(5, &vec![31, 32], None);
    assert!(framebuffer.can_draw());
    assert!(framebuffer.can_attach(0));
    assert!(framebuffer.can_attach(30));
    let room = (u32::MAX - gl::COLOR_ATTACHMENT0) as usize;
    assert!(framebuffer.can_attach(room - 2));
    assert!(!framebuffer.can_attach(room - 1));
    assert!(!framebuffer.can_attach(usize::MAX));
}

#[test]
fn quad_of_a_render_target_is_drawn_from_its_own_layout() {
    let mut framebuffer = target(5, &vec![31], None);
    assert_eq!(framebuffer.get_quad().vertex_array.get_id(), 500);
    framebuffer.link_push(TextureLink { id: 77 });
    framebuffer.set_size(10, 10, &mut Vec::new());
    assert_eq!(framebuffer.get_quad().vertex_array.get_id(), 500);
    assert_eq!(framebuffer.get_quad().meshes.len(), 1);
    assert_eq!(framebuffer.get_quad().transform_buffer.len(), 1);
    assert_eq!(framebuffer.get_inputs(), &vec![TextureLink { id: 77 }]);
}
