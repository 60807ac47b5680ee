//! GPU resource bookkeeping and render-pass composition.
//!
//! The library owns the state of every device object (buffers, vertex
//! layouts, textures, framebuffers) and decides which device commands each
//! operation issues. It never talks to the device itself: operations append
//! [`Command`] values to a queue that the caller executes in order, and take
//! as arguments whatever the device handed back (handles, status words,
//! uniform locations).
pub mod device;
pub mod protocol;
pub mod vertex;
pub mod error;
pub mod gl_image;
pub mod buffer_obj;
pub mod vertex_array;
pub mod texture;
pub mod render_buffer;
pub mod shader_program;
pub mod mesh;
pub mod model;
pub mod model_utils;
pub mod framebuffer;
pub mod render_pipeline;
pub mod view_2d_render_pipeline;
pub mod composite_render_pipeline;
pub mod skybox;
pub mod scene;

pub use device::Command;
pub use protocol::{follow, Bound};
pub use vertex::{Matrix4, Vector2, Vector3, Vector4, Vertex, VertexOffsets};
pub use error::GlError;
pub use gl_image::GlImage;
pub use buffer_obj::Buffer;
pub use vertex_array::VertexArray;
pub use texture::{Texture, TextureLink};
pub use render_buffer::RenderBuffer;
pub use shader_program::{BuildStep, ShaderCodeBundle, ShaderProgram, StageReport};
pub use error::ShaderCompileType;
pub use mesh::Mesh;
pub use render_pipeline::{link, RenderPipeline};
pub use view_2d_render_pipeline::View2DRenderPipeline;
pub use composite_render_pipeline::CompositeRenderPipeline;
pub use skybox::Skybox;
pub use scene::Scene;
pub use framebuffer::{Framebuffer, PendingFramebuffer};
pub use model_utils::{create_quad, create_quad_from_maps, quad_geometry};
pub use model::{BindlessModel, DrawCommand, ModelCreateTrait, ModelHandles, ModelTrait, MultiBindModel};
