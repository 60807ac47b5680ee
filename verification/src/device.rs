use vstd::prelude::*;
use crate::vertex::{Matrix4, Vector3, Vector4};

verus! {

// The words of the device that the library decides by. Each has the value
// that the OpenGL registry gives it.

/// Pixel data with one channel.
pub const RED: u32 = 0x1903;

/// Pixel data with two channels.
pub const RG: u32 = 0x8227;

/// Pixel data with three channels.
pub const RGB: u32 = 0x1907;

/// Pixel data with four channels.
pub const RGBA: u32 = 0x1908;

/// Storage of three colour channels in the sRGB colour space.
pub const SRGB: u32 = 0x8C40;

/// Storage of three colour channels in the sRGB colour space, and alpha.
pub const SRGB_ALPHA: u32 = 0x8C42;

/// Components that are 32-bit floats.
pub const FLOAT: u32 = 0x1406;

/// The target of a two-dimensional texture.
pub const TEXTURE_2D: u32 = 0x0DE1;

/// The target of a cube map.
pub const TEXTURE_CUBE_MAP: u32 = 0x8513;

/// The first colour attachment point of a framebuffer; the others follow it.
pub const COLOR_ATTACHMENT0: u32 = 0x8CE0;

/// The status of a framebuffer that can be rendered into.
pub const FRAMEBUFFER_COMPLETE: u32 = 0x8CD5;

/// The stage that transforms vertices.
pub const VERTEX_SHADER: u32 = 0x8B31;

/// The stage that works on whole primitives.
pub const GEOMETRY_SHADER: u32 = 0x8DD9;

/// The stage that colours fragments.
pub const FRAGMENT_SHADER: u32 = 0x8B30;

/// What the device answers for a uniform block that a program does not have.
pub const INVALID_INDEX: u32 = 0xFFFF_FFFF;

/// The device's word for success of a compilation or a link.
pub const TRUE: i32 = 1;

/// What the device answers for a uniform that a program does not have.
pub const NO_LOCATION: i32 = -1;

// The same words as the `gl` crate has them. The verifier cannot read a
// constant of another crate, so each is fetched by a function whose contract
// is taken on trust: it claims that the crate's constant has the registry's
// value, which is the constant above.

/// Reads `gl::RED`. Trusted: the constant is `0x1903` in the `gl` crate too.
#[verifier::external_body]
pub(crate) fn gl_red() -> (r: u32)
    ensures
        r == RED,
{
    gl::RED
}

/// Reads `gl::RG`. Trusted: the constant is `0x8227` in the `gl` crate too.
#[verifier::external_body]
pub(crate) fn gl_rg() -> (r: u32)
    ensures
        r == RG,
{
    gl::RG
}

/// Reads `gl::RGB`. Trusted: the constant is `0x1907` in the `gl` crate too.
#[verifier::external_body]
pub(crate) fn gl_rgb() -> (r: u32)
    ensures
        r == RGB,
{
    gl::RGB
}

/// Reads `gl::RGBA`. Trusted: the constant is `0x1908` in the `gl` crate too.
#[verifier::external_body]
pub(crate) fn gl_rgba() -> (r: u32)
    ensures
        r == RGBA,
{
    gl::RGBA
}

/// Reads `gl::SRGB`. Trusted: the constant is `0x8C40` in the `gl` crate too.
#[verifier::external_body]
pub(crate) fn gl_srgb() -> (r: u32)
    ensures
        r == SRGB,
{
    gl::SRGB
}

/// Reads `gl::SRGB_ALPHA`. Trusted: the constant is `0x8C42` in the `gl` crate too.
#[verifier::external_body]
pub(crate) fn gl_srgb_alpha() -> (r: u32)
    ensures
        r == SRGB_ALPHA,
{
    gl::SRGB_ALPHA
}

/// Reads `gl::FLOAT`. Trusted: the constant is `0x1406` in the `gl` crate too.
#[verifier::external_body]
pub(crate) fn gl_float() -> (r: u32)
    ensures
        r == FLOAT,
{
    gl::FLOAT
}

/// Reads `gl::TEXTURE_2D`. Trusted: the constant is `0x0DE1` in the `gl` crate too.
#[verifier::external_body]
pub(crate) fn gl_texture_2d() -> (r: u32)
    ensures
        r == TEXTURE_2D,
{
    gl::TEXTURE_2D
}

/// Reads `gl::TEXTURE_CUBE_MAP`. Trusted: the constant is `0x8513` in the `gl` crate too.
#[verifier::external_body]
pub(crate) fn gl_texture_cube_map() -> (r: u32)
    ensures
        r == TEXTURE_CUBE_MAP,
{
    gl::TEXTURE_CUBE_MAP
}

/// Reads `gl::COLOR_ATTACHMENT0`. Trusted: the constant is `0x8CE0` in the `gl` crate too.
#[verifier::external_body]
pub(crate) fn gl_color_attachment0() -> (r: u32)
    ensures
        r == COLOR_ATTACHMENT0,
{
    gl::COLOR_ATTACHMENT0
}

/// Reads `gl::FRAMEBUFFER_COMPLETE`. Trusted: the constant is `0x8CD5` in the `gl` crate too.
#[verifier::external_body]
pub(crate) fn gl_framebuffer_complete() -> (r: u32)
    ensures
        r == FRAMEBUFFER_COMPLETE,
{
    gl::FRAMEBUFFER_COMPLETE
}

/// Reads `gl::VERTEX_SHADER`. Trusted: the constant is `0x8B31` in the `gl` crate too.
#[verifier::external_body]
pub(crate) fn gl_vertex_shader() -> (r: u32)
    ensures
        r == VERTEX_SHADER,
{
    gl::VERTEX_SHADER
}

/// Reads `gl::GEOMETRY_SHADER`. Trusted: the constant is `0x8DD9` in the `gl` crate too.
#[verifier::external_body]
pub(crate) fn gl_geometry_shader() -> (r: u32)
    ensures
        r == GEOMETRY_SHADER,
{
    gl::GEOMETRY_SHADER
}

/// Reads `gl::FRAGMENT_SHADER`. Trusted: the constant is `0x8B30` in the `gl` crate too.
#[verifier::external_body]
pub(crate) fn gl_fragment_shader() -> (r: u32)
    ensures
        r == FRAGMENT_SHADER,
{
    gl::FRAGMENT_SHADER
}

/// Reads `gl::INVALID_INDEX`. Trusted: the constant is `0xFFFF_FFFF` in the `gl` crate too.
#[verifier::external_body]
pub(crate) fn gl_invalid_index() -> (r: u32)
    ensures
        r == INVALID_INDEX,
{
    gl::INVALID_INDEX
}

/// Reads `gl::TRUE`, widened to the integer in which the device reports a
/// status. Trusted: the constant is `1` in the `gl` crate too.
#[verifier::external_body]
pub(crate) fn gl_true() -> (r: i32)
    ensures
        r == TRUE,
{
    i32::from(gl::TRUE)
}

/// The texture properties that this library sets.
#[derive(Debug, Clone, Copy, PartialEq, Eq, Structural)]
pub enum TextureParameter {
    WrapS,
    WrapT,
    WrapR,
    MinFilter,
    MagFilter,
}

/// The values that this library gives to a [`TextureParameter`].
#[derive(Debug, Clone, Copy, PartialEq, Eq, Structural)]
pub enum TextureSetting {
    Repeat,
    ClampToEdge,
    Nearest,
    Linear,
    LinearMipmapLinear,
}

/// The texture categories of a material, in the order in which a mesh binds them.
#[derive(Debug, Clone, Copy, PartialEq, Eq, Structural)]
pub enum TextureKind {
    Diffuse,
    Specular,
    Normal,
    Displacement,
    Shininess,
}

/// A value for a uniform. Floating-point components are carried as their
/// IEEE 754 single-precision bit patterns, which is how the device reads them.
#[derive(Debug, Clone, Copy, PartialEq, Eq, Structural)]
pub enum UniformValue {
    Int(i32),
    Float(u32),
    Vector3(Vector3),
    Vector4(Vector4),
    Matrix4(Matrix4),
}

/// How the device compares depth values.
#[derive(Debug, Clone, Copy, PartialEq, Eq, Structural)]
pub enum DepthTest {
    Less,
    LessOrEqual,
}

/// One request to the graphics device, as plain values.
///
/// Operations of this library append commands to a queue; the caller runs
/// them in order against the device. A command names device objects by
/// their handles. Where a command moves buffer elements, the caller takes
/// them from the buffer's local copy.
#[derive(Debug, Clone, PartialEq, Eq)]
pub enum Command {
    /// Allocate fixed storage for `count` elements and fill it from the local copy.
    BufferStorage { buffer: u32, count: usize },
    /// (Re)allocate resizable storage for `count` elements and fill it from the local copy.
    BufferData { buffer: u32, count: usize },
    /// Overwrite the one element at `index` from the local copy.
    BufferSubData { buffer: u32, index: usize },
    /// Make `buffer` the vertex source of binding slot `binding`.
    VertexArrayVertexBuffer { vertex_array: u32, binding: u32, buffer: u32 },
    /// Make `buffer` the index source of the layout.
    VertexArrayElementBuffer { vertex_array: u32, buffer: u32 },
    /// Switch attribute `attrib` on.
    EnableVertexArrayAttrib { vertex_array: u32, attrib: u32 },
    /// Describe attribute `attrib`: `size` components of type `kind`, `offset` bytes into an element.
    VertexArrayAttribFormat { vertex_array: u32, attrib: u32, size: i32, kind: u32, offset: u32 },
    /// Let attribute `attrib` read from binding slot `binding`.
    VertexArrayAttribBinding { vertex_array: u32, attrib: u32, binding: u32 },
    /// Advance binding slot `binding` once per `divisor` instances (0: once per vertex).
    VertexArrayBindingDivisor { vertex_array: u32, binding: u32, divisor: u32 },
    /// Bind the vertex layout with the given handle (0 unbinds).
    BindVertexArray { vertex_array: u32 },
    /// Draw `count` 32-bit indices of triangles, starting `byte_offset` bytes
    /// into the index source, once per instance, from the bound vertex array.
    DrawElementsInstanced { count: i32, byte_offset: usize, instances: i32 },
    /// Allocate fixed two-dimensional storage.
    TextureStorage2D { texture: u32, internal_format: u32, width: i32, height: i32 },
    /// Fill a whole two-dimensional texture with pixels.
    TextureSubImage2D { texture: u32, width: i32, height: i32, data_format: u32, pixels: Vec<u8> },
    /// Fill one layer of a layered texture with pixels.
    TextureSubImage3D {
        texture: u32,
        layer: i32,
        width: i32,
        height: i32,
        data_format: u32,
        pixels: Vec<u8>,
    },
    /// Derive the smaller levels of the texture from its first.
    GenerateTextureMipmap { texture: u32 },
    /// Set one sampling property of a texture.
    TextureParameter { texture: u32, parameter: TextureParameter, setting: TextureSetting },
    /// Bind a texture to a target (0 unbinds).
    BindTexture { target: u32, texture: u32 },
    /// (Re)allocate half-float RGBA storage for the texture bound to `target`; its contents are undefined.
    TexImage2D { target: u32, width: i32, height: i32 },
    /// Make a texture the sampler input of texture unit `unit`.
    BindTextureUnit { unit: u32, texture: u32 },
    /// (Re)allocate depth and stencil storage of a renderbuffer.
    NamedRenderbufferStorage { render_buffer: u32, width: i32, height: i32 },
    /// Bind a framebuffer as the render target (0: the default target).
    BindFramebuffer { framebuffer: u32 },
    /// Attach a texture to an attachment point of the bound framebuffer.
    FramebufferTexture2D { attachment: u32, texture: u32 },
    /// Attach a renderbuffer as depth and stencil of the bound framebuffer.
    FramebufferRenderbuffer { render_buffer: u32 },
    /// Route the fragment outputs of the bound framebuffer to the first
    /// `count` attachment points of its draw-buffer list.
    DrawBuffers { count: usize },
    /// Make a program current.
    UseProgram { program: u32 },
    /// Set a uniform of the current program.
    Uniform { location: i32, value: UniformValue },
    /// Tie a uniform block of a program to a binding point.
    UniformBlockBinding { program: u32, block: u32, binding: u32 },
    /// Attach a compiled shader to a program.
    AttachShader { program: u32, shader: u32 },
    /// Link a program from its attached shaders.
    LinkProgram { program: u32 },
    /// Release a compiled shader.
    DeleteShader { shader: u32 },
    /// Tell a program that sampler `slot` of a category reads texture unit
    /// `slot`: the uniform is the one that `mesh::sampler_name` names.
    MaterialSampler { program: u32, kind: TextureKind, slot: i32 },
    /// Tell a program how many textures of a category are bound: the
    /// uniform is the one that `mesh::count_name` names.
    MaterialCount { program: u32, kind: TextureKind, count: i32 },
    /// Give a program the plain value of a category that has no texture:
    /// the uniform is the one that `mesh::fallback_name` names.
    MaterialFallback { program: u32, kind: TextureKind, value: UniformValue },
    /// Bind a buffer as the source of indirect draw commands.
    BindDrawIndirectBuffer { buffer: u32 },
    /// Make texture unit 0 the active one.
    ResetActiveTexture,
    /// Render into the rectangle from the origin to `(width, height)`.
    Viewport { width: i32, height: i32 },
    /// Clear the depth values of the bound framebuffer.
    ClearDepth,
    /// Choose the depth comparison.
    DepthFunc { test: DepthTest },
}

} // verus!
