use vstd::prelude::*;
use vstd::string::*;

verus! {

/// Which compilation step a shader diagnostic belongs to.
#[derive(Debug, Clone, Copy, PartialEq, Eq, Structural)]
pub enum ShaderCompileType {
    Program,
    Vertex,
    Fragment,
    Geometry,
}

/// Everything that an operation of this library can report as a failure.
#[derive(Debug)]
pub enum GlError {
    /// A name handed to the device holds a zero byte, at the given position.
    CStringError(usize),
    /// The named uniform does not exist in the program with the given handle.
    UniformNotFound(String, u32),
    /// A shader stage or the program link failed; the device's log is attached.
    ShaderCompileError(ShaderCompileType, u32, String),
    /// The named uniform block does not exist in the program with the given handle.
    UniformInvalidIndex(String, u32),
    /// The framebuffer with the given handle failed its completeness check.
    FramebufferNotComplete(u32),
    UniformBufferMissing,
    /// The texture with the given handle has fixed storage.
    CannotResize(u32),
    /// A collection had the wrong number of elements: `expected`, then `found`.
    IncorrectSize(usize, usize),
    /// An element index was not below the buffer's length: `index`, then `len`.
    IndexOutOfBounds(usize, usize),
}

/// The character of one decimal digit.
pub open spec fn digit(d: nat) -> char {
    if d == 0 {
        '0'
    } else if d == 1 {
        '1'
    } else if d == 2 {
        '2'
    } else if d == 3 {
        '3'
    } else if d == 4 {
        '4'
    } else if d == 5 {
        '5'
    } else if d == 6 {
        '6'
    } else if d == 7 {
        '7'
    } else if d == 8 {
        '8'
    } else {
        '9'
    }
}

/// A number in decimal digits, without leading zeros.
pub open spec fn decimal(n: nat) -> Seq<char>
    decreases n,
{
    if n < 10 {
        seq![digit(n)]
    } else {
        decimal(n / 10).push(digit(n % 10))
    }
}

/// The text of one decimal digit.
fn digit_text(d: u64) -> (text: &'static str)
    requires
        d < 10,
    ensures
        text@ == seq![digit(d as nat)],
{
    proof {
        reveal_strlit("0");
        reveal_strlit("1");
        reveal_strlit("2");
        reveal_strlit("3");
        reveal_strlit("4");
        reveal_strlit("5");
        reveal_strlit("6");
        reveal_strlit("7");
        reveal_strlit("8");
        reveal_strlit("9");
    }
    let text = if d == 0 {
        "0"
    } else if d == 1 {
        "1"
    } else if d == 2 {
        "2"
    } else if d == 3 {
        "3"
    } else if d == 4 {
        "4"
    } else if d == 5 {
        "5"
    } else if d == 6 {
        "6"
    } else if d == 7 {
        "7"
    } else if d == 8 {
        "8"
    } else {
        "9"
    };
    text
}

/// Appends a number in decimal digits.
pub fn append_decimal(text: &mut String, n: u64)
    ensures
        final(text)@ == old(text)@ + decimal(n as nat),
    decreases n,
{
    if n >= 10 {
        append_decimal(text, n / 10);
    }
    text.append(digit_text(n % 10));
}

impl ShaderCompileType {
    /// The name of the step.
    pub open spec fn text(&self) -> Seq<char> {
        match self {
            ShaderCompileType::Program => "Program"@,
            ShaderCompileType::Vertex => "Vertex"@,
            ShaderCompileType::Fragment => "Fragment"@,
            ShaderCompileType::Geometry => "Geometry"@,
        }
    }

    /// The name of the step.
    pub fn name(&self) -> (name: &'static str)
        ensures
            name@ == self.text(),
    {
        match self {
            ShaderCompileType::Program => "Program",
            ShaderCompileType::Vertex => "Vertex",
            ShaderCompileType::Fragment => "Fragment",
            ShaderCompileType::Geometry => "Geometry",
        }
    }
}

impl GlError {
    /// What the error says, for a reader.
    pub open spec fn text(&self) -> Seq<char> {
        match *self {
            GlError::CStringError(at) => "nul byte found in provided data at position: "@ + decimal(
                at as nat,
            ),
            GlError::UniformNotFound(name, id) => "Uniform '"@ + name@ + "' was not found in shader "@
                + decimal(id as nat),
            GlError::ShaderCompileError(type_, id, log) => "Shader '"@ + type_.text() + "' with ID "@
                + decimal(id as nat) + " failed to compile:\n"@ + log@,
            GlError::UniformInvalidIndex(name, id) => "Uniform block '"@ + name@
                + "' was not found in shader "@ + decimal(id as nat),
            GlError::FramebufferNotComplete(id) => "Framebuffer '"@ + decimal(id as nat)
                + "' is not complete"@,
            GlError::UniformBufferMissing => "Uniform buffer is not present"@,
            GlError::CannotResize(id) => "Cannot resize texture '"@ + decimal(id as nat) + "'"@,
            GlError::IncorrectSize(expected, found) => "Incorrect size: expected "@ + decimal(
                expected as nat,
            ) + ", found "@ + decimal(found as nat),
            GlError::IndexOutOfBounds(index, len) => "Index "@ + decimal(index as nat)
                + " is out of bounds for length "@ + decimal(len as nat),
        }
    }

    /// What the error says, for a reader.
    pub fn message(&self) -> (message: String)
        ensures
            message@ == self.text(),
    {
        let mut message = String::new();
        match self {
            GlError::CStringError(at) => {
                message.append("nul byte found in provided data at position: ");
                append_decimal(&mut message, *at as u64);
            },
            GlError::UniformNotFound(name, id) => {
                message.append("Uniform '");
                message.append(name.as_str());
                message.append("' was not found in shader ");
                append_decimal(&mut message, *id as u64);
            },
            GlError::ShaderCompileError(type_, id, log) => {
                message.append("Shader '");
                message.append(type_.name());
                message.append("' with ID ");
                append_decimal(&mut message, *id as u64);
                message.append(" failed to compile:\n");
                message.append(log.as_str());
            },
            GlError::UniformInvalidIndex(name, id) => {
                message.append("Uniform block '");
                message.append(name.as_str());
                message.append("' was not found in shader ");
                append_decimal(&mut message, *id as u64);
            },
            GlError::FramebufferNotComplete(id) => {
                message.append("Framebuffer '");
                append_decimal(&mut message, *id as u64);
                message.append("' is not complete");
            },
            GlError::UniformBufferMissing => {
                message.append("Uniform buffer is not present");
            },
            GlError::CannotResize(id) => {
                message.append("Cannot resize texture '");
                append_decimal(&mut message, *id as u64);
                message.append("'");
            },
            GlError::IncorrectSize(expected, found) => {
                message.append("Incorrect size: expected ");
                append_decimal(&mut message, *expected as u64);
                message.append(", found ");
                append_decimal(&mut message, *found as u64);
            },
            GlError::IndexOutOfBounds(index, len) => {
                message.append("Index ");
                append_decimal(&mut message, *index as u64);
                message.append(" is out of bounds for length ");
                append_decimal(&mut message, *len as u64);
            },
        }
        message
    }
}

} // verus!
