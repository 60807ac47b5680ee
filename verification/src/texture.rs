use vstd::prelude::*;
use crate::device::{
    gl_texture_2d, gl_texture_cube_map, Command, TextureParameter, TextureSetting, TEXTURE_2D,
    TEXTURE_CUBE_MAP,
};
use crate::error::GlError;
use crate::gl_image::{GlImage, FACES};

verus! {

/// One device texture: a two-dimensional image or a cube map.
///
/// A texture made from decoded pixels has fixed storage. One made as a
/// render target can have its storage allocated anew at another size.
pub struct Texture {
    id: u32,
    target: u32,
    can_resize: bool,
    width: i32,
    height: i32,
}

/// A shared reference to a texture: all that a consumer needs to sample it.
///
/// The texture itself stays with the one owner that allocates and resizes
/// it. Every link to it names the same device object, whatever its size
/// becomes.
#[derive(Debug, Clone, Copy, PartialEq, Eq, Structural)]
pub struct TextureLink {
    pub id: u32,
}

/// The command that sets one sampling property.
pub open spec fn parameter(texture: u32, parameter: TextureParameter, setting: TextureSetting) -> Command {
    Command::TextureParameter { texture, parameter, setting }
}

/// The commands that fill a two-dimensional texture from a decoded image.
pub open spec fn image_commands(texture: u32, image: GlImage) -> Seq<Command> {
    seq![
        Command::TextureStorage2D {
            texture,
            internal_format: image.internal_format,
            width: image.width,
            height: image.height,
        },
        Command::TextureSubImage2D {
            texture,
            width: image.width,
            height: image.height,
            data_format: image.data_format,
            pixels: image.bytes,
        },
        Command::GenerateTextureMipmap { texture },
        parameter(texture, TextureParameter::WrapS, TextureSetting::Repeat),
        parameter(texture, TextureParameter::WrapT, TextureSetting::Repeat),
        parameter(texture, TextureParameter::MinFilter, TextureSetting::LinearMipmapLinear),
        parameter(texture, TextureParameter::MagFilter, TextureSetting::Linear),
    ]
}

/// The command that fills cube layer `layer` from a face.
pub open spec fn face_command(texture: u32, layer: int, face: GlImage) -> Command {
    Command::TextureSubImage3D {
        texture,
        layer: layer as i32,
        width: face.width,
        height: face.height,
        data_format: face.data_format,
        pixels: face.bytes,
    }
}

/// The commands that fill the first `n` cube layers, each from the face of its number.
pub open spec fn face_commands(texture: u32, faces: Seq<GlImage>, n: int) -> Seq<Command>
    decreases n,
{
    if n <= 0 {
        Seq::empty()
    } else {
        face_commands(texture, faces, n - 1).push(face_command(texture, n - 1, faces[n - 1]))
    }
}

/// The sampling properties of a cube map: linear filtering, clamped on all three axes.
pub open spec fn cubemap_sampling(texture: u32) -> Seq<Command> {
    seq![
        parameter(texture, TextureParameter::MinFilter, TextureSetting::Linear),
        parameter(texture, TextureParameter::MagFilter, TextureSetting::Linear),
        parameter(texture, TextureParameter::WrapS, TextureSetting::ClampToEdge),
        parameter(texture, TextureParameter::WrapT, TextureSetting::ClampToEdge),
        parameter(texture, TextureParameter::WrapR, TextureSetting::ClampToEdge),
    ]
}

/// The commands that fill a cube map from six faces: storage of the size
/// of the first face, the six layers, the sampling properties.
pub open spec fn cubemap_commands(texture: u32, faces: Seq<GlImage>) -> Seq<Command> {
    seq![
        Command::TextureStorage2D {
            texture,
            internal_format: faces[0].internal_format,
            width: faces[0].width,
            height: faces[0].height,
        },
    ] + face_commands(texture, faces, FACES as int) + cubemap_sampling(texture)
}

/// The commands that (re)allocate the storage of a render-target texture.
pub open spec fn storage_commands(target: u32, texture: u32, width: i32, height: i32) -> Seq<Command> {
    seq![
        Command::BindTexture { target, texture },
        Command::TexImage2D { target, width, height },
        Command::BindTexture { target, texture: 0 },
    ]
}

/// The commands that set up a new render-target texture.
pub open spec fn target_commands(texture: u32, width: i32, height: i32) -> Seq<Command> {
    storage_commands(TEXTURE_2D, texture, width, height) + seq![
        parameter(texture, TextureParameter::MinFilter, TextureSetting::Nearest),
        parameter(texture, TextureParameter::MagFilter, TextureSetting::Nearest),
    ]
}

/// Issues the command that sets one sampling property.
fn set_parameter(
    texture: u32,
    parameter: TextureParameter,
    setting: TextureSetting,
    queue: &mut Vec<Command>,
)
    ensures
        final(queue)@ == old(queue)@.push(self::parameter(texture, parameter, setting)),
{
    queue.push(Command::TextureParameter { texture, parameter, setting });
}

impl Texture {
    /// The device handle.
    pub closed spec fn handle(&self) -> u32 {
        self.id
    }

    /// The texture target: two-dimensional or cube map.
    pub closed spec fn kind(&self) -> u32 {
        self.target
    }

    /// Whether the storage can be allocated anew at another size.
    pub closed spec fn resizable(&self) -> bool {
        self.can_resize
    }

    /// Width and height of the storage.
    pub closed spec fn size(&self) -> (i32, i32) {
        (self.width, self.height)
    }

    /// Whether `self` and `result` are what a resize to the given size
    /// makes of the texture `before`: the new size, or an error and nothing
    /// changed.
    pub open spec fn is_resize_of(
        &self,
        before: Texture,
        width: i32,
        height: i32,
        result: Result<(), GlError>,
    ) -> bool {
        &&& self.handle() == before.handle()
        &&& self.kind() == before.kind()
        &&& self.resizable() == before.resizable()
        &&& before.resizable() ==> result is Ok && self.size() == (width, height)
        &&& !before.resizable() ==> result == Err::<(), GlError>(
            GlError::CannotResize(before.handle()),
        ) && self.size() == before.size()
    }

    /// Whether the texture is what `from_2d` makes of an image.
    pub open spec fn is_image(&self, id: u32, image: GlImage) -> bool {
        &&& self.handle() == id
        &&& self.kind() == TEXTURE_2D
        &&& !self.resizable()
        &&& self.size() == (image.width, image.height)
    }

    /// Whether the texture is what `from_cubemap` makes of six faces.
    pub open spec fn is_cubemap(&self, id: u32, faces: Seq<GlImage>) -> bool {
        &&& self.handle() == id
        &&& self.kind() == TEXTURE_CUBE_MAP
        &&& !self.resizable()
        &&& self.size() == (faces[0].width, faces[0].height)
    }

    /// Whether the texture is what `new_mut` makes: a render target of the given size.
    pub open spec fn is_render_target(&self, id: u32, width: i32, height: i32) -> bool {
        &&& self.handle() == id
        &&& self.kind() == TEXTURE_2D
        &&& self.resizable()
        &&& self.size() == (width, height)
    }

    /// A two-dimensional texture with fixed storage, filled from a decoded
    /// image, with mipmaps, repeating, filtered linearly across levels.
    pub fn from_2d(id: u32, image: GlImage, queue: &mut Vec<Command>) -> (texture: Texture)
        ensures
            texture.is_image(id, image),
            final(queue)@ == old(queue)@ + image_commands(id, image),
    {
        let texture = Texture {
            id,
            target: gl_texture_2d(),
            can_resize: false,
            width: image.width,
            height: image.height,
        };
        queue.push(
            Command::TextureStorage2D {
                texture: id,
                internal_format: image.internal_format,
                width: image.width,
                height: image.height,
            },
        );
        queue.push(
            Command::TextureSubImage2D {
                texture: id,
                width: image.width,
                height: image.height,
                data_format: image.data_format,
                pixels: image.bytes,
            },
        );
        queue.push(Command::GenerateTextureMipmap { texture: id });
        set_parameter(id, TextureParameter::WrapS, TextureSetting::Repeat, queue);
        set_parameter(id, TextureParameter::WrapT, TextureSetting::Repeat, queue);
        set_parameter(id, TextureParameter::MinFilter, TextureSetting::LinearMipmapLinear, queue);
        set_parameter(id, TextureParameter::MagFilter, TextureSetting::Linear, queue);
        texture
    }

    /// Whether a list of images can be the faces of a cube map: there are six.
    pub fn check_faces(faces: &Vec<GlImage>) -> (result: Result<(), GlError>)
        ensures
            faces@.len() == FACES ==> result is Ok,
            faces@.len() != FACES ==> result == Err::<(), GlError>(
                GlError::IncorrectSize(FACES, faces@.len() as usize),
            ),
    {
        if faces.len() == FACES {
            Ok(())
        } else {
            Err(GlError::IncorrectSize(FACES, faces.len()))
        }
    }

    /// A cube map with fixed storage of the size of the first face, each
    /// layer filled from the face of its number, filtered linearly and
    /// clamped to the edge. Anything but six faces is refused before any
    /// command is issued.
    pub fn from_cubemap(id: u32, faces: Vec<GlImage>, queue: &mut Vec<Command>) -> (result: Result<
        Texture,
        GlError,
    >)
        ensures
            faces@.len() == FACES ==> {
                &&& result is Ok
                &&& result->Ok_0.is_cubemap(id, faces@)
                &&& final(queue)@ == old(queue)@ + cubemap_commands(id, faces@)
            },
            faces@.len() != FACES ==> {
                &&& result matches Err(GlError::IncorrectSize(expected, found))
                &&& expected == FACES
                &&& found == faces@.len()
                &&& final(queue)@ == old(queue)@
            },
    {
        match Texture::check_faces(&faces) {
            Err(e) => {
                return Err(e);
            },
            Ok(_) => {},
        }
        let texture = Texture {
            id,
            target: gl_texture_cube_map(),
            can_resize: false,
            width: faces[0].width,
            height: faces[0].height,
        };
        queue.push(
            Command::TextureStorage2D {
                texture: id,
                internal_format: faces[0].internal_format,
                width: faces[0].width,
                height: faces[0].height,
            },
        );
        let ghost start = queue@;
        let mut rest = faces;
        let mut layer: i32 = 0;
        while layer < 6
            invariant
                0 <= layer <= 6,
                faces@.len() == FACES,
                rest@ == faces@.subrange(layer as int, FACES as int),
                queue@ == start + face_commands(id, faces@, layer as int),
            decreases 6 - layer,
        {
            let face = rest.remove(0);
            queue.push(
                Command::TextureSubImage3D {
                    texture: id,
                    layer,
                    width: face.width,
                    height: face.height,
                    data_format: face.data_format,
                    pixels: face.bytes,
                },
            );
            layer += 1;
        }
        set_parameter(id, TextureParameter::MinFilter, TextureSetting::Linear, queue);
        set_parameter(id, TextureParameter::MagFilter, TextureSetting::Linear, queue);
        set_parameter(id, TextureParameter::WrapS, TextureSetting::ClampToEdge, queue);
        set_parameter(id, TextureParameter::WrapT, TextureSetting::ClampToEdge, queue);
        set_parameter(id, TextureParameter::WrapR, TextureSetting::ClampToEdge, queue);
        Ok(texture)
    }

    /// A two-dimensional render-target texture with half-float RGBA storage
    /// that can be allocated anew, filtered to the nearest pixel.
    pub fn new_mut(id: u32, width: i32, height: i32, queue: &mut Vec<Command>) -> (texture: Texture)
        ensures
            texture.is_render_target(id, width, height),
            final(queue)@ == old(queue)@ + target_commands(id, width, height),
    {
        let texture = Texture { id, target: gl_texture_2d(), can_resize: true, width, height };
        texture.allocate(queue);
        set_parameter(id, TextureParameter::MinFilter, TextureSetting::Nearest, queue);
        set_parameter(id, TextureParameter::MagFilter, TextureSetting::Nearest, queue);
        texture
    }

    /// Issues the storage allocation for the current size.
    fn allocate(&self, queue: &mut Vec<Command>)
        ensures
            final(queue)@ == old(queue)@ + storage_commands(
                self.kind(),
                self.handle(),
                self.size().0,
                self.size().1,
            ),
    {
        queue.push(Command::BindTexture { target: self.target, texture: self.id });
        queue.push(Command::TexImage2D { target: self.target, width: self.width, height: self.height });
        queue.push(Command::BindTexture { target: self.target, texture: 0 });
    }

    /// Makes the texture the sampler input of texture unit `num`.
    pub fn ready_texture(&self, num: u32, queue: &mut Vec<Command>)
        ensures
            final(queue)@ == old(queue)@.push(
                Command::BindTextureUnit { unit: num, texture: self.handle() },
            ),
    {
        queue.push(Command::BindTextureUnit { unit: num, texture: self.id });
    }

    /// Allocates the storage anew at another size; its contents are
    /// undefined afterwards. A texture with fixed storage refuses, and
    /// nothing changes.
    pub fn resize(&mut self, width: i32, height: i32, queue: &mut Vec<Command>) -> (result: Result<
        (),
        GlError,
    >)
        ensures
            final(self).is_resize_of(*old(self), width, height, result),
            old(self).resizable() ==> final(queue)@ == old(queue)@ + storage_commands(
                old(self).kind(),
                old(self).handle(),
                width,
                height,
            ),
            !old(self).resizable() ==> final(queue)@ == old(queue)@,
    {
        if !self.can_resize {
            return Err(GlError::CannotResize(self.id));
        }
        self.width = width;
        self.height = height;
        self.allocate(queue);
        Ok(())
    }

    /// A shared reference to this texture.
    pub fn link(&self) -> (link: TextureLink)
        ensures
            link == (TextureLink { id: self.handle() }),
    {
        TextureLink { id: self.id }
    }

    /// The device handle.
    pub fn get_id(&self) -> (id: u32)
        ensures
            id == self.handle(),
    {
        self.id
    }

    /// The texture target: two-dimensional or cube map.
    pub fn get_target(&self) -> (target: u32)
        ensures
            target == self.kind(),
    {
        self.target
    }

    /// Whether the storage can be allocated anew at another size.
    pub fn is_resizable(&self) -> (resizable: bool)
        ensures
            resizable == self.resizable(),
    {
        self.can_resize
    }

    /// Width and height of the storage.
    pub fn get_size(&self) -> (size: (i32, i32))
        ensures
            size == self.size(),
    {
        (self.width, self.height)
    }
}

/// A texture made from a decoded image refuses every resize and keeps its size.
pub proof fn lemma_image_refuses_resize(
    made: Texture,
    after: Texture,
    id: u32,
    image: GlImage,
    width: i32,
    height: i32,
    result: Result<(), GlError>,
)
    requires
        made.is_image(id, image),
        after.is_resize_of(made, width, height, result),
    ensures
        result == Err::<(), GlError>(GlError::CannotResize(id)),
        after.size() == (image.width, image.height),
{
}

/// A cube map made from six faces refuses every resize and keeps its size.
pub proof fn lemma_cubemap_refuses_resize(
    made: Texture,
    after: Texture,
    id: u32,
    faces: Seq<GlImage>,
    width: i32,
    height: i32,
    result: Result<(), GlError>,
)
    requires
        made.is_cubemap(id, faces),
        after.is_resize_of(made, width, height, result),
    ensures
        result == Err::<(), GlError>(GlError::CannotResize(id)),
        after.size() == (faces[0].width, faces[0].height),
{
}

/// A render-target texture accepts every resize and has the new size
/// afterwards, whatever its size was, and can be resized again.
pub proof fn lemma_render_target_resizes(
    made: Texture,
    after: Texture,
    id: u32,
    made_width: i32,
    made_height: i32,
    width: i32,
    height: i32,
    result: Result<(), GlError>,
)
    requires
        made.is_render_target(id, made_width, made_height),
        after.is_resize_of(made, width, height, result),
    ensures
        result is Ok,
        after.is_render_target(id, width, height),
{
}

} // verus!
