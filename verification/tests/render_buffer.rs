use render_core::{Command, RenderBuffer};

#[test]
fn render_buffer_allocates_its_storage() {
    let mut queue = Vec::new();
    let render_buffer = RenderBuffer::new(21, 800, 600, &mut queue);
    assert_eq!(render_buffer.get_id(), 21);
    assert_eq!(render_buffer.get_size(), (800, 600));
    assert_eq!(queue, vec![Command::NamedRenderbufferStorage { render_buffer: 21, width: 800, height: 600 }]);
}

#[test]
fn render_buffer_resizes_in_place() {
    let mut queue = Vec::new();
    let mut render_buffer = RenderBuffer::new(21, 800, 600, &mut queue);
    render_buffer.resize(1024, 768, &mut queue);
    assert_eq!(render_buffer.get_id(), 21);
    assert_eq!(render_buffer.get_size(), (1024, 768));
    assert_eq!(
        queue[1],
        Command::NamedRenderbufferStorage { render_buffer: 21, width: 1024, height: 768 }
    );
}
