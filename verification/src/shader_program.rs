use vstd::prelude::*;
use vstd::string::*;
use crate::device::{
    gl_fragment_shader, gl_geometry_shader, gl_invalid_index, gl_true, gl_vertex_shader, Command,
    UniformValue, FRAGMENT_SHADER, GEOMETRY_SHADER, INVALID_INDEX, NO_LOCATION, TRUE, VERTEX_SHADER,
};
use crate::error::{GlError, ShaderCompileType};
use crate::vertex::{Matrix4, Vector3, Vector4};

verus! {

/// The binding point that every uniform block is tied to.
pub const UNIFORM_BLOCK_BINDING: u32 = 0;

/// One linked device program.
pub struct ShaderProgram {
    id: u32,
}

/// The source texts of the stages of a program; a stage without text is left out.
pub struct ShaderCodeBundle {
    pub vertex: Option<String>,
    pub geometry: Option<String>,
    pub fragment: Option<String>,
}

/// What the device reported of one stage that it compiled.
#[derive(Debug, Clone, PartialEq, Eq)]
pub struct StageReport {
    /// The handle of the shader.
    pub shader: u32,
    /// The device's word for the outcome of the compilation.
    pub success: i32,
    /// What the device wrote into its log.
    pub log: String,
}

/// The next thing to do in the build of a program.
#[derive(Debug, Clone, Copy, PartialEq, Eq, Structural)]
pub enum BuildStep {
    /// Compile the stage with this number, counted among the stages that
    /// have a source, as this kind of shader.
    Compile { stage: usize, kind: u32 },
    /// Every stage is compiled: attach the shaders and link.
    Link,
}

/// How far the build of a program has come.
pub enum Progress {
    /// The stage with this number has failed: its source holds a zero
    /// byte, or the device reported that it did not compile.
    Failed(usize),
    /// The stage with this number is the next to compile.
    Waiting(usize),
    /// There are more reports than stages.
    Surplus,
    /// Every stage has compiled.
    Compiled,
}

/// The stage that a source makes, if there is one.
pub open spec fn stage_of(source: Option<String>, type_: ShaderCompileType) -> Seq<
    (String, ShaderCompileType),
> {
    match source {
        Some(code) => seq![(code, type_)],
        None => Seq::empty(),
    }
}

/// How far the build has come from stage `from` on, if every stage before
/// it has compiled. The stages are judged in their order, each first by
/// its source and then by what the device reported of it, and the first
/// that fails ends the build.
pub open spec fn progress_from(
    stages: Seq<(String, ShaderCompileType)>,
    reports: Seq<StageReport>,
    from: int,
) -> Progress
    decreases stages.len() - from,
{
    if from < 0 || from >= stages.len() {
        if reports.len() > stages.len() {
            Progress::Surplus
        } else {
            Progress::Compiled
        }
    } else if has_nul(vstd::utf8::encode_utf8(stages[from].0@)) {
        Progress::Failed(from as usize)
    } else if from >= reports.len() {
        Progress::Waiting(from as usize)
    } else if reports[from].success != TRUE {
        Progress::Failed(from as usize)
    } else {
        progress_from(stages, reports, from + 1)
    }
}

/// How far the build has come.
pub open spec fn progress(stages: Seq<(String, ShaderCompileType)>, reports: Seq<StageReport>) -> Progress {
    progress_from(stages, reports, 0)
}

/// Whether `error` is the error of the stage with number `at`, which has
/// failed: the place of the first zero byte in its source, or else the
/// stage, the shader and the log of the device's report.
pub open spec fn is_stage_error(
    error: GlError,
    stages: Seq<(String, ShaderCompileType)>,
    reports: Seq<StageReport>,
    at: int,
) -> bool {
    let bytes = vstd::utf8::encode_utf8(stages[at].0@);
    if has_nul(bytes) {
        &&& error matches GlError::CStringError(position)
        &&& is_first_nul(bytes, position as int)
    } else {
        &&& error matches GlError::ShaderCompileError(type_, shader, log)
        &&& type_ == stages[at].1
        &&& shader == reports[at].shader
        &&& log@ == reports[at].log@
    }
}

/// The handles of the shaders of the first `n` reports.
pub open spec fn shaders_of(reports: Seq<StageReport>, n: int) -> Seq<u32>
    decreases n,
{
    if n <= 0 {
        Seq::empty()
    } else {
        shaders_of(reports, n - 1).push(reports[n - 1].shader)
    }
}

/// Whether a text holds a zero byte, which no name or source handed to the device may.
pub open spec fn has_nul(bytes: Seq<u8>) -> bool {
    exists|i: int| 0 <= i < bytes.len() && bytes[i] == 0
}

/// Whether `at` is the position of the first zero byte.
pub open spec fn is_first_nul(bytes: Seq<u8>, at: int) -> bool {
    &&& 0 <= at < bytes.len()
    &&& bytes[at] == 0
    &&& forall|j: int| 0 <= j < at ==> bytes[j] != 0
}

/// The device's word for the stage that a source is compiled as. What is
/// no stage is compiled as a vertex shader.
pub open spec fn shader_kind_of(type_: ShaderCompileType) -> u32 {
    match type_ {
        ShaderCompileType::Vertex => VERTEX_SHADER,
        ShaderCompileType::Geometry => GEOMETRY_SHADER,
        ShaderCompileType::Fragment => FRAGMENT_SHADER,
        ShaderCompileType::Program => VERTEX_SHADER,
    }
}

/// The uniform value that stands for a truth value.
pub open spec fn bool_value(value: bool) -> UniformValue {
    UniformValue::Int(if value { 1 } else { 0 })
}

/// The commands that attach the first `n` shaders to a program.
pub open spec fn attach_commands(program: u32, shaders: Seq<u32>, n: int) -> Seq<Command>
    decreases n,
{
    if n <= 0 {
        Seq::empty()
    } else {
        attach_commands(program, shaders, n - 1).push(
            Command::AttachShader { program, shader: shaders[n - 1] },
        )
    }
}

/// The commands that release the first `n` shaders.
pub open spec fn delete_commands(shaders: Seq<u32>, n: int) -> Seq<Command>
    decreases n,
{
    if n <= 0 {
        Seq::empty()
    } else {
        delete_commands(shaders, n - 1).push(Command::DeleteShader { shader: shaders[n - 1] })
    }
}

/// Whether `result` is the verdict on a text for the device: fine, or the
/// position of its first zero byte.
pub open spec fn is_text_verdict(text: Seq<u8>, result: Result<(), GlError>) -> bool {
    &&& !has_nul(text) ==> result is Ok
    &&& has_nul(text) ==> {
        &&& result matches Err(GlError::CStringError(at))
        &&& is_first_nul(text, at as int)
    }
}

/// Refuses a text with a zero byte and says where the first one is.
pub fn check_text(text: &str) -> (result: Result<(), GlError>)
    ensures
        is_text_verdict(text.spec_bytes(), result),
{
    let bytes = text.as_bytes();
    let mut i: usize = 0;
    while i < bytes.len()
        invariant
            i <= bytes@.len(),
            bytes@ == text.spec_bytes(),
            forall|j: int| 0 <= j < i ==> bytes@[j] != 0,
        decreases bytes@.len() - i,
    {
        if bytes[i] == 0 {
            return Err(GlError::CStringError(i));
        }
        i += 1;
    }
    Ok(())
}

impl ShaderCodeBundle {
    /// The three stages in the order in which they are compiled, each with
    /// its source if it has one.
    pub fn get_vec(&self) -> (stages: Vec<(&Option<String>, ShaderCompileType)>)
        ensures
            stages@ == seq![
                (&self.vertex, ShaderCompileType::Vertex),
                (&self.geometry, ShaderCompileType::Geometry),
                (&self.fragment, ShaderCompileType::Fragment),
            ],
    {
        let mut stages: Vec<(&Option<String>, ShaderCompileType)> = Vec::new();
        stages.push((&self.vertex, ShaderCompileType::Vertex));
        stages.push((&self.geometry, ShaderCompileType::Geometry));
        stages.push((&self.fragment, ShaderCompileType::Fragment));
        stages
    }
}

impl ShaderCodeBundle {
    /// The stages that have a source, in the order in which they are
    /// compiled: vertex, geometry, fragment. A stage without source is
    /// left out.
    pub open spec fn present(&self) -> Seq<(String, ShaderCompileType)> {
        stage_of(self.vertex, ShaderCompileType::Vertex) + stage_of(
            self.geometry,
            ShaderCompileType::Geometry,
        ) + stage_of(self.fragment, ShaderCompileType::Fragment)
    }

    /// The stages that have a source, in the order in which they are compiled.
    pub fn stages(&self) -> (stages: Vec<(&String, ShaderCompileType)>)
        ensures
            stages@.len() == self.present().len(),
            forall|i: int|
                0 <= i < stages@.len() ==> *(#[trigger] stages@[i]).0 == self.present()[i].0
                    && stages@[i].1 == self.present()[i].1,
    {
        let mut stages: Vec<(&String, ShaderCompileType)> = Vec::new();
        if let Some(code) = &self.vertex {
            stages.push((code, ShaderCompileType::Vertex));
        }
        if let Some(code) = &self.geometry {
            stages.push((code, ShaderCompileType::Geometry));
        }
        if let Some(code) = &self.fragment {
            stages.push((code, ShaderCompileType::Fragment));
        }
        stages
    }
}

impl Default for ShaderCodeBundle {
    /// A bundle without any stage.
    fn default() -> (bundle: ShaderCodeBundle)
        ensures
            bundle.vertex is None,
            bundle.geometry is None,
            bundle.fragment is None,
    {
        ShaderCodeBundle { vertex: None, geometry: None, fragment: None }
    }
}

impl ShaderProgram {
    /// The device handle.
    pub closed spec fn handle(&self) -> u32 {
        self.id
    }

    /// What setting a uniform comes to: a name with a zero byte is refused;
    /// a checked set of a uniform that the program lacks is refused too;
    /// anything else is one command. Nothing is issued on refusal.
    pub open spec fn uniform_outcome(
        &self,
        name: &str,
        location: i32,
        value: UniformValue,
        checked: bool,
        before: Seq<Command>,
        after: Seq<Command>,
        result: Result<(), GlError>,
    ) -> bool {
        if has_nul(name.spec_bytes()) {
            &&& result matches Err(GlError::CStringError(at))
            &&& is_first_nul(name.spec_bytes(), at as int)
            &&& after == before
        } else if checked && location == NO_LOCATION {
            &&& result matches Err(GlError::UniformNotFound(missing, program))
            &&& missing@ == name@
            &&& program == self.handle()
            &&& after == before
        } else {
            &&& result is Ok
            &&& after == before.push(Command::Uniform { location, value })
        }
    }

    /// The device's word for the stage that a source is compiled as.
    pub fn shader_kind(type_: ShaderCompileType) -> (kind: u32)
        ensures
            kind == shader_kind_of(type_),
    {
        match type_ {
            ShaderCompileType::Vertex => gl_vertex_shader(),
            ShaderCompileType::Geometry => gl_geometry_shader(),
            ShaderCompileType::Fragment => gl_fragment_shader(),
            ShaderCompileType::Program => gl_vertex_shader(),
        }
    }

    /// Decides how a source is compiled: as which kind of shader, or not at
    /// all because it holds a zero byte.
    pub fn compile_shader(code: &str, type_: ShaderCompileType) -> (result: Result<u32, GlError>)
        ensures
            !has_nul(code.spec_bytes()) ==> result == Ok::<u32, GlError>(shader_kind_of(type_)),
            has_nul(code.spec_bytes()) ==> {
                &&& result matches Err(GlError::CStringError(at))
                &&& is_first_nul(code.spec_bytes(), at as int)
            },
    {
        match check_text(code) {
            Ok(_) => Ok(ShaderProgram::shader_kind(type_)),
            Err(e) => Err(e),
        }
    }

    /// Judges a compilation or a link by the status that the device
    /// reported, and attaches the device's log to a failure.
    pub fn check_compile_errors(
        id: u32,
        type_: ShaderCompileType,
        success: i32,
        log: String,
    ) -> (result: Result<(), GlError>)
        ensures
            success == TRUE ==> result is Ok,
            success != TRUE ==> result == Err::<(), GlError>(
                GlError::ShaderCompileError(type_, id, log),
            ),
    {
        if success == gl_true() {
            Ok(())
        } else {
            Err(GlError::ShaderCompileError(type_, id, log))
        }
    }

    /// Attaches compiled shaders to a program, in their order, and links it.
    pub fn link_program(program: u32, shaders: &Vec<u32>, queue: &mut Vec<Command>)
        ensures
            final(queue)@ == (old(queue)@ + attach_commands(
                program,
                shaders@,
                shaders@.len() as int,
            )).push(Command::LinkProgram { program }),
    {
        let mut i: usize = 0;
        while i < shaders.len()
            invariant
                i <= shaders@.len(),
                queue@ == old(queue)@ + attach_commands(program, shaders@, i as int),
            decreases shaders@.len() - i,
        {
            queue.push(Command::AttachShader { program, shader: shaders[i] });
            i += 1;
        }
        queue.push(Command::LinkProgram { program });
    }

    /// Takes over a program that was linked from `shaders`, if the device
    /// reported success, and releases the shaders. After a failed link
    /// nothing changes and nothing is issued.
    pub fn compile_program(
        &mut self,
        program: u32,
        shaders: &Vec<u32>,
        success: i32,
        log: String,
        queue: &mut Vec<Command>,
    ) -> (result: Result<(), GlError>)
        ensures
            success == TRUE ==> {
                &&& result is Ok
                &&& final(self).handle() == program
                &&& final(queue)@ == old(queue)@ + delete_commands(shaders@, shaders@.len() as int)
            },
            success != TRUE ==> {
                &&& result == Err::<(), GlError>(
                    GlError::ShaderCompileError(ShaderCompileType::Program, program, log),
                )
                &&& final(self).handle() == old(self).handle()
                &&& final(queue)@ == old(queue)@
            },
    {
        match ShaderProgram::check_compile_errors(program, ShaderCompileType::Program, success, log) {
            Err(e) => {
                return Err(e);
            },
            Ok(_) => {},
        }
        let mut i: usize = 0;
        while i < shaders.len()
            invariant
                i <= shaders@.len(),
                queue@ == old(queue)@ + delete_commands(shaders@, i as int),
            decreases shaders@.len() - i,
        {
            queue.push(Command::DeleteShader { shader: shaders[i] });
            i += 1;
        }
        self.id = program;
        Ok(())
    }

    /// Judges the stages of a build by their sources and by what the
    /// device reported of those that were compiled so far: the error of the
    /// first that fails, or else how far the build has come, together with
    /// the shaders of the stages that passed.
    fn judge(shader_bundle: &ShaderCodeBundle, reports: &Vec<StageReport>) -> (result: Result<
        (Option<BuildStep>, Vec<u32>),
        GlError,
    >)
        ensures
            match progress(shader_bundle.present(), reports@) {
                Progress::Failed(at) => {
                    &&& result is Err
                    &&& at < shader_bundle.present().len()
                    &&& is_stage_error(result->Err_0, shader_bundle.present(), reports@, at as int)
                },
                Progress::Waiting(at) => {
                    &&& result is Ok
                    &&& at < shader_bundle.present().len()
                    &&& result->Ok_0.0 == Some(
                        BuildStep::Compile {
                            stage: at,
                            kind: shader_kind_of(shader_bundle.present()[at as int].1),
                        },
                    )
                },
                Progress::Surplus => {
                    &&& result is Ok
                    &&& result->Ok_0.0 is None
                },
                Progress::Compiled => {
                    &&& result is Ok
                    &&& result->Ok_0.0 == Some(BuildStep::Link)
                    &&& reports@.len() == shader_bundle.present().len()
                    &&& result->Ok_0.1@ == shaders_of(reports@, reports@.len() as int)
                },
            },
    {
        let stages = shader_bundle.stages();
        let mut shaders: Vec<u32> = Vec::new();
        let mut i: usize = 0;
        while i < stages.len()
            invariant
                i <= stages@.len(),
                stages@.len() == shader_bundle.present().len(),
                forall|k: int|
                    0 <= k < stages@.len() ==> *(#[trigger] stages@[k]).0
                        == shader_bundle.present()[k].0 && stages@[k].1
                        == shader_bundle.present()[k].1,
                i <= reports@.len(),
                shaders@ == shaders_of(reports@, i as int),
                progress(shader_bundle.present(), reports@) == progress_from(
                    shader_bundle.present(),
                    reports@,
                    i as int,
                ),
            decreases stages@.len() - i,
        {
            let (code, type_) = stages[i];
            match check_text(code.as_str()) {
                Err(e) => {
                    return Err(e);
                },
                Ok(_) => {},
            }
            if i >= reports.len() {
                let kind = ShaderProgram::shader_kind(type_);
                return Ok((Some(BuildStep::Compile { stage: i, kind }), shaders));
            }
            if reports[i].success != gl_true() {
                let log = reports[i].log.clone();
                return Err(GlError::ShaderCompileError(type_, reports[i].shader, log));
            }
            shaders.push(reports[i].shader);
            i += 1;
        }
        if reports.len() > stages.len() {
            Ok((None, shaders))
        } else {
            Ok((Some(BuildStep::Link), shaders))
        }
    }

    /// Says what to do next in the build of a program from a bundle, given
    /// what the device reported of the stages compiled so far, one report
    /// for each in their order: compile the next stage, or link, or give up
    /// with the error of the first stage that failed. A stage whose source
    /// holds a zero byte fails before it is compiled. More reports than
    /// stages are a mistake of the caller.
    pub fn next_step(shader_bundle: &ShaderCodeBundle, reports: &Vec<StageReport>) -> (result: Result<
        BuildStep,
        GlError,
    >)
        ensures
            match progress(shader_bundle.present(), reports@) {
                Progress::Failed(at) => {
                    &&& result is Err
                    &&& is_stage_error(result->Err_0, shader_bundle.present(), reports@, at as int)
                },
                Progress::Waiting(at) => result == Ok::<BuildStep, GlError>(
                    BuildStep::Compile {
                        stage: at,
                        kind: shader_kind_of(shader_bundle.present()[at as int].1),
                    },
                ),
                Progress::Surplus => result == Err::<BuildStep, GlError>(
                    GlError::IncorrectSize(
                        shader_bundle.present().len() as usize,
                        reports@.len() as usize,
                    ),
                ),
                Progress::Compiled => result == Ok::<BuildStep, GlError>(BuildStep::Link),
            },
    {
        match ShaderProgram::judge(shader_bundle, reports) {
            Err(e) => Err(e),
            Ok((Some(step), _)) => Ok(step),
            Ok((None, _)) => Err(
                GlError::IncorrectSize(shader_bundle.stages().len(), reports.len()),
            ),
        }
    }

    /// The handles of the shaders that were compiled, in their order, for linking.
    pub fn shader_ids(reports: &Vec<StageReport>) -> (shaders: Vec<u32>)
        ensures
            shaders@ == shaders_of(reports@, reports@.len() as int),
    {
        let mut shaders: Vec<u32> = Vec::new();
        let mut i: usize = 0;
        while i < reports.len()
            invariant
                i <= reports@.len(),
                shaders@ == shaders_of(reports@, i as int),
            decreases reports@.len() - i,
        {
            shaders.push(reports[i].shader);
            i += 1;
        }
        shaders
    }

    /// The program built from a bundle, given what the device reported of
    /// each stage that has a source, in their order, and of the link of
    /// program `program` from their shaders.
    ///
    /// The program is handed out if every stage compiled and the link
    /// succeeded; its shaders are then released. Otherwise the error of the
    /// first stage that failed is reported, or else that of the link, and
    /// nothing is issued. Stages without source are passed over. Reports
    /// that do not match the stages one for one are a mistake of the caller.
    pub fn new(
        shader_bundle: &ShaderCodeBundle,
        reports: &Vec<StageReport>,
        program: u32,
        success: i32,
        log: String,
        queue: &mut Vec<Command>,
    ) -> (result: Result<ShaderProgram, GlError>)
        ensures
            match progress(shader_bundle.present(), reports@) {
                Progress::Failed(at) => {
                    &&& result is Err
                    &&& is_stage_error(result->Err_0, shader_bundle.present(), reports@, at as int)
                    &&& final(queue)@ == old(queue)@
                },
                Progress::Compiled => {
                    &&& success == TRUE ==> {
                        &&& result is Ok
                        &&& result->Ok_0.handle() == program
                        &&& final(queue)@ == old(queue)@ + delete_commands(
                            shaders_of(reports@, reports@.len() as int),
                            reports@.len() as int,
                        )
                    }
                    &&& success != TRUE ==> {
                        &&& result matches Err(GlError::ShaderCompileError(type_, id, text))
                        &&& type_ == ShaderCompileType::Program
                        &&& id == program
                        &&& text == log
                        &&& final(queue)@ == old(queue)@
                    }
                },
                _ => {
                    &&& result is Err
                    &&& result->Err_0 == GlError::IncorrectSize(
                        shader_bundle.present().len() as usize,
                        reports@.len() as usize,
                    )
                    &&& final(queue)@ == old(queue)@
                },
            },
    {
        let shaders = match ShaderProgram::judge(shader_bundle, reports) {
            Err(e) => {
                return Err(e);
            },
            Ok((Some(BuildStep::Link), shaders)) => shaders,
            Ok(_) => {
                return Err(GlError::IncorrectSize(shader_bundle.stages().len(), reports.len()));
            },
        };
        proof {
            lemma_shaders_len(reports@, reports@.len() as int);
        }
        let mut shader_program = ShaderProgram { id: 0 };
        match shader_program.compile_program(program, &shaders, success, log, queue) {
            Ok(_) => Ok(shader_program),
            Err(e) => Err(e),
        }
    }

    /// Makes the program current.
    pub fn use_program(&self, queue: &mut Vec<Command>)
        ensures
            final(queue)@ == old(queue)@.push(Command::UseProgram { program: self.handle() }),
    {
        queue.push(Command::UseProgram { program: self.id });
    }

    /// Sets the uniform called `name`, which the device found at `location`,
    /// or reports that the program has no such uniform.
    pub fn set_uniform(
        &self,
        name: &str,
        location: i32,
        value: UniformValue,
        queue: &mut Vec<Command>,
    ) -> (result: Result<(), GlError>)
        ensures
            self.uniform_outcome(name, location, value, true, old(queue)@, final(queue)@, result),
    {
        match check_text(name) {
            Err(e) => {
                return Err(e);
            },
            Ok(_) => {},
        }
        if location == NO_LOCATION {
            return Err(GlError::UniformNotFound(name.to_owned(), self.id));
        }
        queue.push(Command::Uniform { location, value });
        Ok(())
    }

    /// Sets the uniform called `name` at whatever location the device
    /// answered; where the program has no such uniform the device ignores it.
    pub fn set_uniform_unsafe(
        &self,
        name: &str,
        location: i32,
        value: UniformValue,
        queue: &mut Vec<Command>,
    ) -> (result: Result<(), GlError>)
        ensures
            self.uniform_outcome(name, location, value, false, old(queue)@, final(queue)@, result),
    {
        match check_text(name) {
            Err(e) => {
                return Err(e);
            },
            Ok(_) => {},
        }
        queue.push(Command::Uniform { location, value });
        Ok(())
    }

    /// Sets a truth value, as the integer 1 or 0. The uniform must exist.
    pub fn set_bool(
        &self,
        name: &str,
        value: bool,
        location: i32,
        queue: &mut Vec<Command>,
    ) -> (result: Result<(), GlError>)
        ensures
            self.uniform_outcome(
                name,
                location,
                bool_value(value),
                true,
                old(queue)@,
                final(queue)@,
                result,
            ),
    {
        self.set_uniform(name, location, UniformValue::Int(if value { 1 } else { 0 }), queue)
    }

    /// Sets an integer. The uniform must exist.
    pub fn set_int(
        &self,
        name: &str,
        value: i32,
        location: i32,
        queue: &mut Vec<Command>,
    ) -> (result: Result<(), GlError>)
        ensures
            self.uniform_outcome(
                name,
                location,
                UniformValue::Int(value),
                true,
                old(queue)@,
                final(queue)@,
                result,
            ),
    {
        self.set_uniform(name, location, UniformValue::Int(value), queue)
    }

    /// Sets a float, given as its bit pattern. The uniform must exist.
    pub fn set_float(
        &self,
        name: &str,
        value: u32,
        location: i32,
        queue: &mut Vec<Command>,
    ) -> (result: Result<(), GlError>)
        ensures
            self.uniform_outcome(
                name,
                location,
                UniformValue::Float(value),
                true,
                old(queue)@,
                final(queue)@,
                result,
            ),
    {
        self.set_uniform(name, location, UniformValue::Float(value), queue)
    }

    /// Sets a vector of three floats, given as their bit patterns. The uniform must exist.
    pub fn set_vector_3(
        &self,
        name: &str,
        value: &Vector3,
        location: i32,
        queue: &mut Vec<Command>,
    ) -> (result: Result<(), GlError>)
        ensures
            self.uniform_outcome(
                name,
                location,
                UniformValue::Vector3(*value),
                true,
                old(queue)@,
                final(queue)@,
                result,
            ),
    {
        self.set_uniform(name, location, UniformValue::Vector3(*value), queue)
    }

    /// Sets a vector of three floats, given one by one as their bit patterns. The uniform must
    /// exist.
    pub fn set_vec3(
        &self,
        name: &str,
        x: u32,
        y: u32,
        z: u32,
        location: i32,
        queue: &mut Vec<Command>,
    ) -> (result: Result<(), GlError>)
        ensures
            self.uniform_outcome(
                name,
                location,
                UniformValue::Vector3(Vector3 { x, y, z }),
                true,
                old(queue)@,
                final(queue)@,
                result,
            ),
    {
        self.set_uniform(name, location, UniformValue::Vector3(Vector3 { x, y, z }), queue)
    }

    /// Sets a vector of four floats, given as their bit patterns. The uniform must exist.
    pub fn set_vector_4(
        &self,
        name: &str,
        value: &Vector4,
        location: i32,
        queue: &mut Vec<Command>,
    ) -> (result: Result<(), GlError>)
        ensures
            self.uniform_outcome(
                name,
                location,
                UniformValue::Vector4(*value),
                true,
                old(queue)@,
                final(queue)@,
                result,
            ),
    {
        self.set_uniform(name, location, UniformValue::Vector4(*value), queue)
    }

    /// Sets a vector of four floats, given one by one as their bit patterns, in the order in
    /// which the device takes them. The uniform must exist.
    pub fn set_vec4(
        &self,
        name: &str,
        w: u32,
        x: u32,
        y: u32,
        z: u32,
        location: i32,
        queue: &mut Vec<Command>,
    ) -> (result: Result<(), GlError>)
        ensures
            self.uniform_outcome(
                name,
                location,
                UniformValue::Vector4(Vector4 { x: w, y: x, z: y, w: z }),
                true,
                old(queue)@,
                final(queue)@,
                result,
            ),
    {
        self.set_uniform(name, location, UniformValue::Vector4(Vector4 { x: w, y: x, z: y, w: z }), queue)
    }

    /// Sets a matrix of four by four floats, given column by column as their bit patterns. The
    /// uniform must exist.
    pub fn set_mat4(
        &self,
        name: &str,
        value: &Matrix4,
        location: i32,
        queue: &mut Vec<Command>,
    ) -> (result: Result<(), GlError>)
        ensures
            self.uniform_outcome(
                name,
                location,
                UniformValue::Matrix4(*value),
                true,
                old(queue)@,
                final(queue)@,
                result,
            ),
    {
        self.set_uniform(name, location, UniformValue::Matrix4(*value), queue)
    }

    /// Sets a truth value, as the integer 1 or 0. A uniform that does not exist is passed over in
    /// silence.
    pub fn set_bool_unsafe(
        &self,
        name: &str,
        value: bool,
        location: i32,
        queue: &mut Vec<Command>,
    ) -> (result: Result<(), GlError>)
        ensures
            self.uniform_outcome(
                name,
                location,
                bool_value(value),
                false,
                old(queue)@,
                final(queue)@,
                result,
            ),
    {
        self.set_uniform_unsafe(name, location, UniformValue::Int(if value { 1 } else { 0 }), queue)
    }

    /// Sets an integer. A uniform that does not exist is passed over in silence.
    pub fn set_int_unsafe(
        &self,
        name: &str,
        value: i32,
        location: i32,
        queue: &mut Vec<Command>,
    ) -> (result: Result<(), GlError>)
        ensures
            self.uniform_outcome(
                name,
                location,
                UniformValue::Int(value),
                false,
                old(queue)@,
                final(queue)@,
                result,
            ),
    {
        self.set_uniform_unsafe(name, location, UniformValue::Int(value), queue)
    }

    /// Sets a float, given as its bit pattern. A uniform that does not exist is passed over in
    /// silence.
    pub fn set_float_unsafe(
        &self,
        name: &str,
        value: u32,
        location: i32,
        queue: &mut Vec<Command>,
    ) -> (result: Result<(), GlError>)
        ensures
            self.uniform_outcome(
                name,
                location,
                UniformValue::Float(value),
                false,
                old(queue)@,
                final(queue)@,
                result,
            ),
    {
        self.set_uniform_unsafe(name, location, UniformValue::Float(value), queue)
    }

    /// Sets a vector of three floats, given as their bit patterns. A uniform that does not exist
    /// is passed over in silence.
    pub fn set_vector_3_unsafe(
        &self,
        name: &str,
        value: &Vector3,
        location: i32,
        queue: &mut Vec<Command>,
    ) -> (result: Result<(), GlError>)
        ensures
            self.uniform_outcome(
                name,
                location,
                UniformValue::Vector3(*value),
                false,
                old(queue)@,
                final(queue)@,
                result,
            ),
    {
        self.set_uniform_unsafe(name, location, UniformValue::Vector3(*value), queue)
    }

    /// Sets a vector of three floats, given one by one as their bit patterns. A uniform that does
    /// not exist is passed over in silence.
    pub fn set_vec3_unsafe(
        &self,
        name: &str,
        x: u32,
        y: u32,
        z: u32,
        location: i32,
        queue: &mut Vec<Command>,
    ) -> (result: Result<(), GlError>)
        ensures
            self.uniform_outcome(
                name,
                location,
                UniformValue::Vector3(Vector3 { x, y, z }),
                false,
                old(queue)@,
                final(queue)@,
                result,
            ),
    {
        self.set_uniform_unsafe(name, location, UniformValue::Vector3(Vector3 { x, y, z }), queue)
    }

    /// Sets a vector of four floats, given as their bit patterns. A uniform that does not exist
    /// is passed over in silence.
    pub fn set_vector_4_unsafe(
        &self,
        name: &str,
        value: &Vector4,
        location: i32,
        queue: &mut Vec<Command>,
    ) -> (result: Result<(), GlError>)
        ensures
            self.uniform_outcome(
                name,
                location,
                UniformValue::Vector4(*value),
                false,
                old(queue)@,
                final(queue)@,
                result,
            ),
    {
        self.set_uniform_unsafe(name, location, UniformValue::Vector4(*value), queue)
    }

    /// Sets a vector of four floats, given one by one as their bit patterns, in the order in
    /// which the device takes them. A uniform that does not exist is passed over in silence.
    pub fn set_vec4_unsafe(
        &self,
        name: &str,
        w: u32,
        x: u32,
        y: u32,
        z: u32,
        location: i32,
        queue: &mut Vec<Command>,
    ) -> (result: Result<(), GlError>)
        ensures
            self.uniform_outcome(
                name,
                location,
                UniformValue::Vector4(Vector4 { x: w, y: x, z: y, w: z }),
                false,
                old(queue)@,
                final(queue)@,
                result,
            ),
    {
        self.set_uniform_unsafe(name, location, UniformValue::Vector4(Vector4 { x: w, y: x, z: y, w: z }), queue)
    }

    /// Sets a matrix of four by four floats, given column by column as their bit patterns. A
    /// uniform that does not exist is passed over in silence.
    pub fn set_mat4_unsafe(
        &self,
        name: &str,
        value: &Matrix4,
        location: i32,
        queue: &mut Vec<Command>,
    ) -> (result: Result<(), GlError>)
        ensures
            self.uniform_outcome(
                name,
                location,
                UniformValue::Matrix4(*value),
                false,
                old(queue)@,
                final(queue)@,
                result,
            ),
    {
        self.set_uniform_unsafe(name, location, UniformValue::Matrix4(*value), queue)
    }

    /// Ties the uniform block called `name`, which the device found at
    /// `index`, to the common binding point, or reports that the program has
    /// no such block.
    pub fn bind_to_ubo(&self, name: &str, index: u32, queue: &mut Vec<Command>) -> (result: Result<
        (),
        GlError,
    >)
        ensures
            has_nul(name.spec_bytes()) ==> {
                &&& result matches Err(GlError::CStringError(at))
                &&& is_first_nul(name.spec_bytes(), at as int)
                &&& final(queue)@ == old(queue)@
            },
            !has_nul(name.spec_bytes()) && index == INVALID_INDEX ==> {
                &&& result matches Err(GlError::UniformInvalidIndex(missing, program))
                &&& missing@ == name@
                &&& program == self.handle()
                &&& final(queue)@ == old(queue)@
            },
            !has_nul(name.spec_bytes()) && index != INVALID_INDEX ==> {
                &&& result is Ok
                &&& final(queue)@ == old(queue)@.push(
                    Command::UniformBlockBinding {
                        program: self.handle(),
                        block: index,
                        binding: UNIFORM_BLOCK_BINDING,
                    },
                )
            },
    {
        match check_text(name) {
            Err(e) => {
                return Err(e);
            },
            Ok(_) => {},
        }
        if index == gl_invalid_index() {
            return Err(GlError::UniformInvalidIndex(name.to_owned(), self.id));
        }
        queue.push(
            Command::UniformBlockBinding { program: self.id, block: index, binding: UNIFORM_BLOCK_BINDING },
        );
        Ok(())
    }

    /// The device handle.
    pub fn get_id(&self) -> (id: u32)
        ensures
            id == self.handle(),
    {
        self.id
    }
}

/// There are as many shaders as reports.
pub proof fn lemma_shaders_len(reports: Seq<StageReport>, n: int)
    requires
        0 <= n,
    ensures
        shaders_of(reports, n).len() == n,
    decreases n,
{
    if n > 0 {
        lemma_shaders_len(reports, n - 1);
    }
}

} // verus!
