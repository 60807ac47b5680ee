use render_core::{
    create_quad, follow, Bound, Command, CompositeRenderPipeline, Framebuffer, Matrix4, Mesh, ModelHandles,
    ModelTrait, MultiBindModel, RenderPipeline, ShaderCodeBundle, ShaderProgram, Skybox, TextureLink,
    Vertex, VertexOffsets, View2DRenderPipeline,
};

fn quad(base: u32) -> ModelHandles {
    ModelHandles {
        vertex_array: base,
        vertex_buffer: base + 1,
        element_buffer: base + 2,
        transform_buffer: base + 3,
        command_buffer: 0,
    }
}

fn offsets() -> VertexOffsets {
    VertexOffsets { position: 0, normal: 12, tex_coord: 24, tangent: 32, bitangent: 44 }
}

fn program(id: u32) -> ShaderProgram {
    ShaderProgram::new(&ShaderCodeBundle::default(), &Vec::new(), id, 1, String::new(), &mut Vec::new())
        .unwrap()
}

fn bound(vertex_array: u32, framebuffer: u32, program: u32) -> Bound {
    Bound { vertex_array, framebuffer, program }
}

#[test]
fn bindings_follow_the_bind_commands() {
    let queue = vec![
        Command::BindVertexArray { vertex_array: 3 },
        Command::ClearDepth,
        Command::BindFramebuffer { framebuffer: 4 },
        Command::UseProgram { program: 5 },
        Command::BindVertexArray { vertex_array: 0 },
    ];
    let (ordered, end) = follow(bound(1, 2, 3), &queue, bound(0, 2, 0));
    assert!(ordered);
    assert_eq!(end, bound(0, 4, 5));
    assert_eq!(follow(bound(1, 2, 3), &vec![], bound(9, 9, 9)), (true, bound(1, 2, 3)));
}

#[test]
fn commands_out_of_place_are_found() {
    let draw = Command::DrawElementsInstanced { count: 3, byte_offset: 0, instances: 1 };
    let want = bound(7, 8, 9);
    // the draw comes before its vertex array is bound
    let early = vec![draw.clone(), Command::BindVertexArray { vertex_array: 7 }];
    assert_eq!(follow(bound(0, 0, 0), &early, want), (false, bound(7, 0, 0)));
    let late = vec![Command::BindVertexArray { vertex_array: 7 }, draw.clone()];
    assert_eq!(follow(bound(0, 0, 0), &late, want), (true, bound(7, 0, 0)));
    // an attachment with another framebuffer bound
    let attach = vec![
        Command::BindFramebuffer { framebuffer: 1 },
        Command::FramebufferTexture2D { attachment: gl::COLOR_ATTACHMENT0, texture: 2 },
    ];
    assert!(!follow(bound(0, 0, 0), &attach, want).0);
    assert!(follow(bound(0, 0, 0), &attach, bound(7, 1, 9)).0);
    // a material setting for a program that is not current
    let material = vec![Command::MaterialCount {
        program: 9,
        kind: render_core::device::TextureKind::Diffuse,
        count: 0,
    }];
    assert!(!follow(bound(0, 0, 8), &material, want).0);
    assert!(follow(bound(0, 0, 9), &material, want).0);
}

#[test]
fn model_draws_in_order_with_its_program_current() {
    let mut queue = Vec::new();
    let mut mesh = Mesh::new(0, 3);
    mesh.diffuse_textures.push(TextureLink { id: 50 });
    let model = MultiBindModel::new(
        quad(10),
        vec![Vertex::default(); 3],
        vec![0, 1, 2],
        vec![Matrix4::identity()],
        vec![mesh, Mesh::new(0, 3)],
        offsets(),
        &mut queue,
    );
    // building needs nothing bound
    assert_eq!(follow(bound(1, 2, 3), &queue, bound(0, 0, 0)), (true, bound(1, 2, 3)));
    queue.clear();
    model.draw(&program(9), &mut queue);
    assert_eq!(follow(bound(1, 2, 9), &queue, bound(10, 0, 0)), (true, bound(0, 2, 9)));
    // with another program current the material settings are out of place
    assert!(!follow(bound(1, 2, 8), &queue, bound(10, 0, 0)).0);
}

#[test]
fn framebuffer_is_set_up_and_drawn_in_order() {
    let mut queue = Vec::new();
    let pending = Framebuffer::new(5, 800, 600, &vec![31, 32], Some(41), quad(100), offsets(), &mut queue);
    assert_eq!(follow(bound(1, 2, 3), &queue, bound(0, 5, 0)), (true, bound(1, 5, 3)));
    let mut framebuffer = pending.finish(gl::FRAMEBUFFER_COMPLETE, &mut queue).unwrap();
    assert_eq!(follow(bound(1, 2, 3), &queue, bound(0, 5, 0)), (true, bound(1, 0, 3)));
    framebuffer.link_push(TextureLink { id: 77 });
    queue.clear();
    framebuffer.draw(&program(9), &mut queue);
    assert_eq!(follow(bound(1, 2, 3), &queue, bound(100, 5, 9)), (true, bound(0, 5, 9)));
    queue.clear();
    framebuffer.set_size(10, 10, &mut queue);
    assert_eq!(follow(bound(1, 2, 3), &queue, bound(0, 0, 0)), (true, bound(1, 2, 3)));
    // adding attachments later needs the framebuffer bound
    queue.clear();
    framebuffer.gen_textures(&vec![33], &mut queue);
    assert!(!follow(bound(1, 2, 3), &queue, bound(0, 5, 0)).0);
    assert!(follow(bound(1, 5, 3), &queue, bound(0, 5, 0)).0);
}

#[test]
fn passes_bind_and_draw_in_order() {
    let mut queue = Vec::new();
    let pending = View2DRenderPipeline::prepare(5, 800, 600, 31, 41, quad(500), offsets(), &mut queue);
    let a = View2DRenderPipeline::new(pending, gl::FRAMEBUFFER_COMPLETE, &mut queue).unwrap();
    let pending = Framebuffer::new(6, 800, 600, &vec![32], None, quad(600), offsets(), &mut queue);
    let mut b =
        CompositeRenderPipeline::new(pending, gl::FRAMEBUFFER_COMPLETE, program(9), &mut queue).unwrap();
    b.link_to(a.get_link().unwrap()).unwrap();
    queue.clear();
    a.bind(&mut queue);
    assert_eq!(follow(bound(1, 2, 3), &queue, bound(0, 5, 0)), (true, bound(1, 5, 3)));
    b.bind(&mut queue);
    b.draw(&mut queue).unwrap();
    let from = queue.iter().position(|c| *c == Command::Viewport { width: 800, height: 600 }).unwrap();
    assert_eq!(from, 0);
    let second: Vec<Command> = queue[3..].to_vec();
    assert_eq!(follow(bound(1, 5, 3), &second, bound(600, 6, 9)), (true, bound(0, 6, 9)));
}

#[test]
fn backdrop_draws_in_order() {
    let mut queue = Vec::new();
    let model: MultiBindModel = create_quad(quad(10), vec![Matrix4::identity()], offsets(), &mut queue);
    let skybox = Skybox { model };
    queue.clear();
    skybox.draw(&program(9), &mut queue);
    assert_eq!(follow(bound(1, 2, 3), &queue, bound(10, 0, 0)), (true, bound(0, 2, 9)));
}
