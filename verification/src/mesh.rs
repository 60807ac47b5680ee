use vstd::prelude::*;
use vstd::string::*;
use crate::device::{Command, TextureKind, UniformValue};
use crate::error::{append_decimal, decimal};
use crate::shader_program::ShaderProgram;
use crate::texture::TextureLink;
use crate::vertex::{zero3, Vector3, ZERO};

verus! {

/// A range of a model's indices together with the textures that it is drawn with.
///
/// Diffuse colour, specular colour and shininess each have a plain value,
/// held as bit patterns of floats, that is used while the category has no
/// texture.
pub struct Mesh {
    pub diffuse_textures: Vec<TextureLink>,
    pub diffuse: Vector3,
    pub specular_textures: Vec<TextureLink>,
    pub specular: Vector3,
    pub normal_textures: Vec<TextureLink>,
    pub displacement_textures: Vec<TextureLink>,
    pub shininess_textures: Vec<TextureLink>,
    pub shininess: u32,
    pub buffer_offset: usize,
    pub buffer_count: i32,
}

/// The word for a category of textures in the names of a program's uniforms.
pub open spec fn kind_text(kind: TextureKind) -> Seq<char> {
    match kind {
        TextureKind::Diffuse => "diffuse"@,
        TextureKind::Specular => "specular"@,
        TextureKind::Normal => "normal"@,
        TextureKind::Displacement => "displacement"@,
        TextureKind::Shininess => "shininess"@,
    }
}

/// A number in decimal digits, with a minus sign before a negative one.
pub open spec fn signed_decimal(n: int) -> Seq<char> {
    if n < 0 {
        "-"@ + decimal((-n) as nat)
    } else {
        decimal(n as nat)
    }
}

/// The name of the uniform that says which texture unit sampler `slot` of a
/// category reads.
pub open spec fn sampler_text(kind: TextureKind, slot: int) -> Seq<char> {
    "material."@ + kind_text(kind) + "["@ + signed_decimal(slot) + "]"@
}

/// The name of the uniform that says how many textures of a category are bound.
pub open spec fn count_text(kind: TextureKind) -> Seq<char> {
    "material."@ + kind_text(kind) + "Count"@
}

/// The name of the uniform that holds the plain value of a category.
pub open spec fn fallback_text(kind: TextureKind) -> Seq<char> {
    "material."@ + kind_text(kind) + "Float"@
}

/// The word for a category of textures in the names of a program's uniforms.
pub fn kind_name(kind: TextureKind) -> (name: &'static str)
    ensures
        name@ == kind_text(kind),
{
    match kind {
        TextureKind::Diffuse => "diffuse",
        TextureKind::Specular => "specular",
        TextureKind::Normal => "normal",
        TextureKind::Displacement => "displacement",
        TextureKind::Shininess => "shininess",
    }
}

/// The name of the uniform that a `MaterialSampler` command sets.
pub fn sampler_name(kind: TextureKind, slot: i32) -> (name: String)
    ensures
        name@ == sampler_text(kind, slot as int),
{
    let mut name = String::new();
    name.append("material.");
    name.append(kind_name(kind));
    name.append("[");
    if slot < 0 {
        name.append("-");
        append_decimal(&mut name, (0 - slot as i64) as u64);
    } else {
        append_decimal(&mut name, slot as u64);
    }
    name.append("]");
    assert(name@ =~= sampler_text(kind, slot as int));
    name
}

/// The name of the uniform that a `MaterialCount` command sets.
pub fn count_name(kind: TextureKind) -> (name: String)
    ensures
        name@ == count_text(kind),
{
    let mut name = String::new();
    name.append("material.");
    name.append(kind_name(kind));
    name.append("Count");
    assert(name@ =~= count_text(kind));
    name
}

/// The name of the uniform that a `MaterialFallback` command sets.
pub fn fallback_name(kind: TextureKind) -> (name: String)
    ensures
        name@ == fallback_text(kind),
{
    let mut name = String::new();
    name.append("material.");
    name.append(kind_name(kind));
    name.append("Float");
    assert(name@ =~= fallback_text(kind));
    name
}

/// Bytes that one index takes up in the index source.
pub const INDEX_BYTES: usize = 4;

/// The commands that bind the first `n` textures of a category to the
/// texture units from `base` on, and point the category's samplers at them.
pub open spec fn bind_commands(
    program: u32,
    kind: TextureKind,
    links: Seq<TextureLink>,
    base: int,
    n: int,
) -> Seq<Command>
    decreases n,
{
    if n <= 0 {
        Seq::empty()
    } else {
        bind_commands(program, kind, links, base, n - 1) + seq![
            Command::BindTextureUnit { unit: (base + n - 1) as u32, texture: links[n - 1].id },
            Command::MaterialSampler { program, kind, slot: (base + n - 1) as i32 },
        ]
    }
}

/// All commands for one category: its textures, their number, and the
/// plain value where the category has one and no texture.
pub open spec fn category_commands(
    program: u32,
    kind: TextureKind,
    links: Seq<TextureLink>,
    base: int,
    fallback: Option<UniformValue>,
) -> Seq<Command> {
    bind_commands(program, kind, links, base, links.len() as int).push(
        Command::MaterialCount { program, kind, count: links.len() as i32 },
    ) + (match fallback {
        Some(value) if links.len() == 0 => seq![Command::MaterialFallback { program, kind, value }],
        _ => Seq::empty(),
    })
}

impl Mesh {
    /// Index of the first index of the range.
    pub open spec fn offset(&self) -> usize {
        self.buffer_offset
    }

    /// Number of indices in the range.
    pub open spec fn count(&self) -> i32 {
        self.buffer_count
    }

    /// Where the range starts in the index source, in bytes.
    pub open spec fn byte_offset(&self) -> int {
        self.buffer_offset * INDEX_BYTES
    }

    /// Whether the mesh can be drawn: its textures can be numbered and the
    /// start of its range can be given in bytes.
    pub open spec fn drawable(&self) -> bool {
        &&& self.texture_count() <= i32::MAX
        &&& self.byte_offset() <= usize::MAX
    }

    /// Number of textures of all categories together.
    pub open spec fn texture_count(&self) -> int {
        (self.diffuse_textures@.len() + self.specular_textures@.len() + self.normal_textures@.len()
            + self.displacement_textures@.len() + self.shininess_textures@.len()) as int
    }

    /// The commands that prepare a program for drawing this mesh.
    /// The categories come in the order diffuse, specular, normal,
    /// displacement, shininess, and the texture units are numbered through.
    pub open spec fn material_commands(&self, program: u32) -> Seq<Command> {
        let d = self.diffuse_textures@;
        let s = self.specular_textures@;
        let n = self.normal_textures@;
        let p = self.displacement_textures@;
        let h = self.shininess_textures@;
        category_commands(
            program,
            TextureKind::Diffuse,
            d,
            0,
            Some(UniformValue::Vector3(self.diffuse)),
        ) + category_commands(
            program,
            TextureKind::Specular,
            s,
            d.len() as int,
            Some(UniformValue::Vector3(self.specular)),
        ) + category_commands(program, TextureKind::Normal, n, (d.len() + s.len()) as int, None)
            + category_commands(
            program,
            TextureKind::Displacement,
            p,
            (d.len() + s.len() + n.len()) as int,
            None,
        ) + category_commands(
            program,
            TextureKind::Shininess,
            h,
            (d.len() + s.len() + n.len() + p.len()) as int,
            Some(UniformValue::Float(self.shininess)),
        )
    }

    /// A mesh over `buffer_count` indices from index `buffer_offset` on, without textures.
    pub fn new(buffer_offset: usize, buffer_count: i32) -> (mesh: Mesh)
        ensures
            mesh.offset() == buffer_offset,
            mesh.count() == buffer_count,
            mesh.diffuse_textures@ == Seq::<TextureLink>::empty(),
            mesh.specular_textures@ == Seq::<TextureLink>::empty(),
            mesh.normal_textures@ == Seq::<TextureLink>::empty(),
            mesh.displacement_textures@ == Seq::<TextureLink>::empty(),
            mesh.shininess_textures@ == Seq::<TextureLink>::empty(),
            mesh.diffuse == zero3(),
            mesh.specular == zero3(),
            mesh.shininess == ZERO,
    {
        Mesh {
            diffuse_textures: Vec::new(),
            diffuse: Vector3 { x: ZERO, y: ZERO, z: ZERO },
            specular_textures: Vec::new(),
            specular: Vector3 { x: ZERO, y: ZERO, z: ZERO },
            normal_textures: Vec::new(),
            displacement_textures: Vec::new(),
            shininess_textures: Vec::new(),
            shininess: ZERO,
            buffer_offset,
            buffer_count,
        }
    }

    /// Decides whether the mesh can be drawn.
    pub fn fits(&self) -> (fits: bool)
        ensures
            fits == self.drawable(),
    {
        let limit: u128 = 0x7fff_ffff;
        let total: u128 = self.diffuse_textures.len() as u128 + self.specular_textures.len() as u128
            + self.normal_textures.len() as u128 + self.displacement_textures.len() as u128
            + self.shininess_textures.len() as u128;
        total <= limit && self.buffer_offset <= usize::MAX / INDEX_BYTES
    }

    /// Where the range starts in the index source, in bytes.
    pub fn get_byte_offset(&self) -> (offset: usize)
        requires
            self.byte_offset() <= usize::MAX,
        ensures
            offset == self.byte_offset(),
    {
        self.buffer_offset * INDEX_BYTES
    }

    /// Binds the textures of one category from unit `base` on and reports
    /// the first unit that is still free.
    fn set_category(
        program: u32,
        kind: TextureKind,
        links: &Vec<TextureLink>,
        base: i32,
        fallback: Option<UniformValue>,
        queue: &mut Vec<Command>,
    ) -> (next: i32)
        requires
            0 <= base,
            base + links@.len() <= i32::MAX,
        ensures
            next == base + links@.len(),
            final(queue)@ == old(queue)@ + category_commands(
                program,
                kind,
                links@,
                base as int,
                fallback,
            ),
    {
        let mut i: usize = 0;
        let mut unit: i32 = base;
        while i < links.len()
            invariant
                0 <= base,
                base + links@.len() <= i32::MAX,
                i <= links@.len(),
                unit == base + i,
                queue@ == old(queue)@ + bind_commands(program, kind, links@, base as int, i as int),
            decreases links@.len() - i,
        {
            queue.push(Command::BindTextureUnit { unit: unit as u32, texture: links[i].id });
            queue.push(Command::MaterialSampler { program, kind, slot: unit });
            i += 1;
            unit += 1;
        }
        queue.push(Command::MaterialCount { program, kind, count: links.len() as i32 });
        if links.len() == 0 {
            if let Some(value) = fallback {
                queue.push(Command::MaterialFallback { program, kind, value });
            }
        }
        unit
    }

    /// Prepares a program for drawing this mesh: binds every
    /// texture to a unit of its own and tells the program which, how many
    /// there are of each category, and the plain value of a category
    /// without textures.
    pub fn set_textures(&self, shader_program: &ShaderProgram, queue: &mut Vec<Command>)
        requires
            self.texture_count() <= i32::MAX,
        ensures
            final(queue)@ == old(queue)@ + self.material_commands(shader_program.handle()),
    {
        let program = shader_program.get_id();
        let unit = Mesh::set_category(
            program,
            TextureKind::Diffuse,
            &self.diffuse_textures,
            0,
            Some(UniformValue::Vector3(self.diffuse)),
            queue,
        );
        let unit = Mesh::set_category(
            program,
            TextureKind::Specular,
            &self.specular_textures,
            unit,
            Some(UniformValue::Vector3(self.specular)),
            queue,
        );
        let unit = Mesh::set_category(program, TextureKind::Normal, &self.normal_textures, unit, None, queue);
        let unit = Mesh::set_category(
            program,
            TextureKind::Displacement,
            &self.displacement_textures,
            unit,
            None,
            queue,
        );
        let _ = Mesh::set_category(
            program,
            TextureKind::Shininess,
            &self.shininess_textures,
            unit,
            Some(UniformValue::Float(self.shininess)),
            queue,
        );
    }

    /// Index of the first index of the range.
    pub fn get_offset(&self) -> (offset: usize)
        ensures
            offset == self.offset(),
    {
        self.buffer_offset
    }

    /// Number of indices in the range.
    pub fn get_count(&self) -> (count: i32)
        ensures
            count == self.count(),
    {
        self.buffer_count
    }
}

} // verus!
