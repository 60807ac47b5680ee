use render_core::device::{TextureParameter, TextureSetting};
use render_core::{Command, GlError, GlImage, Texture, TextureLink};

fn face(tag: u8) -> GlImage {
    GlImage { bytes: vec![tag; 4], internal_format: gl::SRGB, data_format: gl::RGB, width: 2, height: 2 }
}

fn setting(texture: u32, parameter: TextureParameter, setting: TextureSetting) -> Command {
    Command::TextureParameter { texture, parameter, setting }
}

#[test]
fn decoded_image_becomes_fixed_texture() {
    let mut queue = Vec::new();
    let image = GlImage {
        bytes: vec![1, 2, 3, 4, 5, 6],
        internal_format: gl::SRGB,
        data_format: gl::RGB,
        width: 2,
        height: 1,
    };
    let texture = Texture::from_2d(11, image, &mut queue);
    assert_eq!(texture.get_id(), 11);
    assert_eq!(texture.get_target(), gl::TEXTURE_2D);
    assert!(!texture.is_resizable());
    assert_eq!(texture.get_size(), (2, 1));
    assert_eq!(
        queue,
        vec![
            Command::TextureStorage2D { texture: 11, internal_format: gl::SRGB, width: 2, height: 1 },
            Command::TextureSubImage2D {
                texture: 11,
                width: 2,
                height: 1,
                data_format: gl::RGB,
                pixels: vec![1, 2, 3, 4, 5, 6]
            },
            Command::GenerateTextureMipmap { texture: 11 },
            setting(11, TextureParameter::WrapS, TextureSetting::Repeat),
            setting(11, TextureParameter::WrapT, TextureSetting::Repeat),
            setting(11, TextureParameter::MinFilter, TextureSetting::LinearMipmapLinear),
            setting(11, TextureParameter::MagFilter, TextureSetting::Linear),
        ]
    );
}

#[test]
fn six_faces_become_a_cube_map() {
    let mut queue = Vec::new();
    let faces: Vec<GlImage> = (0..6).map(face).collect();
    let texture = Texture::from_cubemap(12, faces, &mut queue).unwrap();
    assert_eq!(texture.get_id(), 12);
    assert_eq!(texture.get_target(), gl::TEXTURE_CUBE_MAP);
    assert!(!texture.is_resizable());
    assert_eq!(texture.get_size(), (2, 2));
    assert_eq!(queue.len(), 12);
    assert_eq!(
        queue[0],
        Command::TextureStorage2D { texture: 12, internal_format: gl::SRGB, width: 2, height: 2 }
    );
    for layer in 0..6 {
        assert_eq!(
            queue[1 + layer],
            Command::TextureSubImage3D {
                texture: 12,
                layer: layer as i32,
                width: 2,
                height: 2,
                data_format: gl::RGB,
                pixels: vec![layer as u8; 4]
            }
        );
    }
    assert_eq!(
        queue[7..].to_vec(),
        vec![
            setting(12, TextureParameter::MinFilter, TextureSetting::Linear),
            setting(12, TextureParameter::MagFilter, TextureSetting::Linear),
            setting(12, TextureParameter::WrapS, TextureSetting::ClampToEdge),
            setting(12, TextureParameter::WrapT, TextureSetting::ClampToEdge),
            setting(12, TextureParameter::WrapR, TextureSetting::ClampToEdge),
        ]
    );
}

#[test]
fn cube_map_needs_exactly_six_faces() {
    for count in [0usize, 1, 5, 7, 12] {
        let mut queue = vec![Command::ClearDepth];
        let faces: Vec<GlImage> = (0..count).map(|i| face(i as u8)).collect();
        assert!(matches!(Texture::check_faces(&faces), Err(GlError::IncorrectSize(6, n)) if n == count));
        match Texture::from_cubemap(12, faces, &mut queue) {
            Err(GlError::IncorrectSize(expected, found)) => {
                assert_eq!(expected, 6);
                assert_eq!(found, count);
            }
            _ => panic!("{} faces must be refused", count),
        }
        assert_eq!(queue, vec![Command::ClearDepth]);
    }
    let six: Vec<GlImage> = (0..6).map(face).collect();
    assert!(Texture::check_faces(&six).is_ok());
}

#[test]
fn render_target_texture_is_resizable() {
    let mut queue = Vec::new();
    let texture = Texture::new_mut(13, 800, 600, &mut queue);
    assert_eq!(texture.get_id(), 13);
    assert_eq!(texture.get_target(), gl::TEXTURE_2D);
    assert!(texture.is_resizable());
    assert_eq!(texture.get_size(), (800, 600));
    assert_eq!(
        queue,
        vec![
            Command::BindTexture { target: gl::TEXTURE_2D, texture: 13 },
            Command::TexImage2D { target: gl::TEXTURE_2D, width: 800, height: 600 },
            Command::BindTexture { target: gl::TEXTURE_2D, texture: 0 },
            setting(13, TextureParameter::MinFilter, TextureSetting::Nearest),
            setting(13, TextureParameter::MagFilter, TextureSetting::Nearest),
        ]
    );
}

#[test]
fn resize_of_fixed_textures_fails() {
    let mut queue = Vec::new();
    let mut plain = Texture::from_2d(11, face(0), &mut queue);
    let mut cube = Texture::from_cubemap(12, (0..6).map(face).collect(), &mut queue).unwrap();
    let before = queue.clone();
    assert!(matches!(plain.resize(10, 10, &mut queue), Err(GlError::CannotResize(11))));
    assert!(matches!(cube.resize(10, 10, &mut queue), Err(GlError::CannotResize(12))));
    assert!(matches!(plain.resize(2, 2, &mut queue), Err(GlError::CannotResize(11))));
    assert_eq!(plain.get_size(), (2, 2));
    assert_eq!(cube.get_size(), (2, 2));
    assert_eq!(queue, before);
}

#[test]
fn resize_of_render_target_succeeds() {
    let mut queue = Vec::new();
    let mut texture = Texture::new_mut(13, 800, 600, &mut queue);
    queue.clear();
    assert!(texture.resize(1024, 768, &mut queue).is_ok());
    assert_eq!(texture.get_size(), (1024, 768));
    assert_eq!(texture.get_id(), 13);
    assert!(texture.is_resizable());
    assert_eq!(
        queue,
        vec![
            Command::BindTexture { target: gl::TEXTURE_2D, texture: 13 },
            Command::TexImage2D { target: gl::TEXTURE_2D, width: 1024, height: 768 },
            Command::BindTexture { target: gl::TEXTURE_2D, texture: 0 },
        ]
    );
    assert!(texture.resize(0, 0, &mut queue).is_ok());
    assert_eq!(texture.get_size(), (0, 0));
}

#[test]
fn texture_is_bound_to_a_unit() {
    let mut queue = Vec::new();
    let texture = Texture::new_mut(13, 1, 1, &mut queue);
    queue.clear();
    texture.ready_texture(5, &mut queue);
    assert_eq!(queue, vec![Command::BindTextureUnit { unit: 5, texture: 13 }]);
    assert_eq!(texture.link(), TextureLink { id: 13 });
}

#[test]
fn cube_map_from_a_cross() {
    let mut queue = Vec::new();
    let cross = GlImage {
        bytes: (0u8..12).collect(),
        internal_format: gl::RED,
        data_format: gl::RED,
        width: 4,
        height: 3,
    };
    let texture = Texture::from_cubemap(3, cross.cube_faces(), &mut queue).unwrap();
    assert_eq!(texture.get_size(), (1, 1));
    let pixels: Vec<Vec<u8>> = queue
        .iter()
        .filter_map(|c| match c {
            Command::TextureSubImage3D { pixels, .. } => Some(pixels.clone()),
            _ => None,
        })
        .collect();
    assert_eq!(pixels, vec![vec![6], vec![4], vec![1], vec![9], vec![5], vec![7]]);
}
