//! Shaders, programs and draw requests in the terms of the graphics driver.

use std::ops::Range;
use vstd::prelude::*;
use vstd::string::StringExecFns;

verus! {

/// `gl::FRAGMENT_SHADER`: the number by which the driver knows the fragment
/// stage, which the interface fixes at `0x8B30`.
#[verifier::external_body]
fn fragment_shader() -> (value: u32)
    ensures
        value == 0x8B30,
{
    gl::FRAGMENT_SHADER
}

/// `gl::VERTEX_SHADER`: the number by which the driver knows the vertex
/// stage, which the interface fixes at `0x8B31`.
#[verifier::external_body]
fn vertex_shader() -> (value: u32)
    ensures
        value == 0x8B31,
{
    gl::VERTEX_SHADER
}

/// `gl::TEXTURE0`: the number of the first texture unit, which the interface
/// fixes at `0x84C0`.
#[verifier::external_body]
fn texture0() -> (value: u32)
    ensures
        value == 0x84C0,
{
    gl::TEXTURE0
}

/// `gl::TRIANGLES`: the number of the drawing mode that takes three vertices
/// to a triangle, which the interface fixes at `0x0004`.
#[verifier::external_body]
fn triangles() -> (value: u32)
    ensures
        value == 0x0004,
{
    gl::TRIANGLES
}

/// `gl::LINE_STRIP`: the number of the drawing mode that joins each vertex to
/// the one before, which the interface fixes at `0x0003`.
#[verifier::external_body]
fn line_strip() -> (value: u32)
    ensures
        value == 0x0003,
{
    gl::LINE_STRIP
}

/// `gl::FUNC_ADD`: the number of the blend equation that adds source and
/// destination, which the interface fixes at `0x8006`.
#[verifier::external_body]
fn func_add() -> (value: u32)
    ensures
        value == 0x8006,
{
    gl::FUNC_ADD
}

/// `gl::SRC_ALPHA`: the number of the blend factor that is the alpha of the
/// source, which the interface fixes at `0x0302`.
#[verifier::external_body]
fn src_alpha() -> (value: u32)
    ensures
        value == 0x0302,
{
    gl::SRC_ALPHA
}

/// `gl::ONE_MINUS_SRC_ALPHA`: the number of the blend factor that is one less
/// the alpha of the source, which the interface fixes at `0x0303`.
#[verifier::external_body]
fn one_minus_src_alpha() -> (value: u32)
    ensures
        value == 0x0303,
{
    gl::ONE_MINUS_SRC_ALPHA
}

/// `gl::ZERO`: the number of the blend factor zero, which the interface fixes
/// at `0`.
#[verifier::external_body]
fn zero() -> (value: u32)
    ensures
        value == 0,
{
    gl::ZERO
}

/// The two stages of a shader program.
#[derive(Debug, Clone, Copy, PartialEq, Eq, Structural)]
pub enum GLShaderType {
    Fragment,
    Vertex,
}

impl GLShaderType {
    /// The number by which the driver knows the stage.
    pub open spec fn spec_gl_value(&self) -> u32 {
        match self {
            GLShaderType::Fragment => 0x8B30,
            GLShaderType::Vertex => 0x8B31,
        }
    }

    /// The number by which the driver knows the stage.
    pub fn gl_value(&self) -> (value: u32)
        ensures
            value == self.spec_gl_value(),
    {
        match self {
            GLShaderType::Fragment => fragment_shader(),
            GLShaderType::Vertex => vertex_shader(),
        }
    }

    /// The stage's name as it appears in messages.
    pub open spec fn spec_name(&self) -> Seq<char> {
        match self {
            GLShaderType::Fragment => "Fragment"@,
            GLShaderType::Vertex => "Vertex"@,
        }
    }

    /// The stage's name as it appears in messages.
    pub fn name(&self) -> (name: &'static str)
        ensures
            name@ == self.spec_name(),
    {
        match self {
            GLShaderType::Fragment => "Fragment",
            GLShaderType::Vertex => "Vertex",
        }
    }
}

/// Why a shader program could not be built.
#[derive(Debug)]
pub enum GLError {
    /// A shader of stage `typ` did not compile; `message` is the compiler's
    /// log.
    ShaderCompilation { typ: GLShaderType, message: String },
    /// The program did not link; `message` is the linker's log.
    ShaderLinking { message: String },
}

impl GLError {
    /// The text of the error: a marker, what failed, and the log on a line
    /// of its own.
    pub open spec fn spec_describe(&self) -> Seq<char> {
        match self {
            GLError::ShaderCompilation { typ, message } => "[ !!!!!!! ] "@ + "Shader/"@
                + typ.spec_name() + " compile failed:\n"@ + message@,
            GLError::ShaderLinking { message } => "[ !!!!!!! ] "@ + "Shader link failed:\n"@
                + message@,
        }
    }

    /// The text of the error: a marker, what failed, and the log on a line
    /// of its own.
    pub fn describe(&self) -> (text: String)
        ensures
            text@ == self.spec_describe(),
    {
        let marker = String::from_str("[ !!!!!!! ] ");
        match self {
            GLError::ShaderCompilation { typ, message } => marker.concat("Shader/").concat(
                typ.name(),
            ).concat(" compile failed:\n").concat(message.as_str()),
            GLError::ShaderLinking { message } => marker.concat("Shader link failed:\n").concat(
                message.as_str(),
            ),
        }
    }
}

/// What the driver's status word says of a compilation or a link: zero is
/// failure, anything else success.
pub open spec fn succeeded(status: i32) -> bool {
    status != 0
}

/// A shader object of the driver, known by the name the driver gave it.
pub struct GLShader {
    typ: GLShaderType,
    ref_id: u32,
}

impl GLShader {
    /// The stage this shader is for.
    pub closed spec fn typ(&self) -> GLShaderType {
        self.typ
    }

    /// The name the driver gave this shader.
    pub closed spec fn ref_id(&self) -> u32 {
        self.ref_id
    }

    /// The shader of stage `typ` that the driver has created under the name
    /// `ref_id`.
    pub fn new(typ: GLShaderType, ref_id: u32) -> (shader: Self)
        ensures
            shader.typ() == typ,
            shader.ref_id() == ref_id,
    {
        GLShader { typ, ref_id }
    }

    /// The name the driver gave this shader.
    pub fn id(&self) -> (ref_id: u32)
        ensures
            ref_id == self.ref_id(),
    {
        self.ref_id
    }

    /// The outcome of compiling this shader, from the status the driver
    /// reports and the log it kept: a failure carries the shader's stage and
    /// the log.
    pub fn compile(&self, status: i32, log: String) -> (outcome: Result<(), GLError>)
        ensures
            succeeded(status) ==> outcome is Ok,
            !succeeded(status) ==> outcome == Err::<(), GLError>(
                GLError::ShaderCompilation { typ: self.typ(), message: log },
            ),
    {
        if status == 0 {
            Err(GLError::ShaderCompilation { typ: self.typ, message: log })
        } else {
            Ok(())
        }
    }
}

/// A program object of the driver, known by the name the driver gave it.
struct GLShaderProgram {
    ref_id: u32,
}

/// A program that shaders can still be attached to.
pub struct GLShaderProgramBuilder {
    obj: GLShaderProgram,
}

/// A program that has been linked and can be drawn with.
pub struct GLShaderProgramLinked {
    obj: GLShaderProgram,
}

impl GLShaderProgramBuilder {
    /// The name the driver gave the program.
    pub closed spec fn ref_id(&self) -> u32 {
        self.obj.ref_id
    }

    /// The builder of the program that the driver has created under the name
    /// `ref_id`.
    pub fn new(ref_id: u32) -> (builder: Self)
        ensures
            builder.ref_id() == ref_id,
    {
        GLShaderProgramBuilder { obj: GLShaderProgram { ref_id } }
    }

    /// The names of program and shader, in the order in which the driver's
    /// attach call takes them.
    pub fn attatch_shader(&self, shader: &GLShader) -> (names: (u32, u32))
        ensures
            names == (self.ref_id(), shader.ref_id()),
    {
        (self.obj.ref_id, shader.ref_id)
    }

    /// The outcome of linking the program, from the status the driver
    /// reports and the log it kept: the same program, now fit to draw with,
    /// or a failure that carries the log.
    pub fn link(self, status: i32, log: String) -> (outcome: Result<GLShaderProgramLinked, GLError>)
        ensures
            succeeded(status) ==> outcome is Ok && outcome->Ok_0.ref_id() == self.ref_id(),
            !succeeded(status) ==> outcome is Err && outcome->Err_0 == (GLError::ShaderLinking {
                message: log,
            }),
    {
        if status == 0 {
            Err(GLError::ShaderLinking { message: log })
        } else {
            Ok(GLShaderProgramLinked { obj: self.obj })
        }
    }
}

impl GLShaderProgramLinked {
    /// The name the driver gave the program.
    pub closed spec fn ref_id(&self) -> u32 {
        self.obj.ref_id
    }

    /// The name under which the driver is told to draw with this program.
    pub fn use_for_draw(&self) -> (ref_id: u32)
        ensures
            ref_id == self.ref_id(),
    {
        self.obj.ref_id
    }
}

/// A colour of four channels.
#[derive(Debug, Clone, Copy, Default, PartialEq, Eq)]
pub struct Rgba<T> {
    pub r: T,
    pub g: T,
    pub b: T,
    pub a: T,
}

/// The texture units that renderers bind to.
#[derive(Debug, Clone, Copy, PartialEq, Eq, Structural)]
pub enum GLTextureSlot {
    Tex0,
}

impl GLTextureSlot {
    /// The number by which the driver knows the unit.
    pub fn gl_enum(&self) -> (unit: u32)
        ensures
            unit == 0x84C0,
    {
        match self {
            GLTextureSlot::Tex0 => texture0(),
        }
    }

    /// The unit's index, which is what a sampler uniform is set to.
    pub fn gl_int(&self) -> (index: i32)
        ensures
            index == 0,
    {
        match self {
            GLTextureSlot::Tex0 => 0,
        }
    }
}

/// How what is drawn combines with what is there.
#[derive(Debug, Clone, Copy, PartialEq, Eq, Structural)]
pub enum TransparencyMode {
    /// Blend over the destination by the source's alpha.
    Normal,
    /// Overwrite the destination, the source still scaled by its alpha.
    Replace,
}

/// The blend function of a transparency mode, in the driver's numbers:
/// source and destination are scaled by the two factors and combined by the
/// equation.
#[derive(Debug, Clone, Copy, PartialEq, Eq, Structural)]
pub struct BlendFunc {
    pub equation: u32,
    pub source: u32,
    pub destination: u32,
}

impl TransparencyMode {
    /// The blend function that puts this mode into effect: the source
    /// scaled by its alpha is added to the destination, which is scaled by
    /// what the source's alpha leaves of one, or by zero where it is to be
    /// replaced.
    pub open spec fn spec_apply(&self) -> BlendFunc {
        BlendFunc {
            equation: 0x8006,
            source: 0x0302,
            destination: match self {
                TransparencyMode::Normal => 0x0303,
                TransparencyMode::Replace => 0,
            },
        }
    }

    /// The blend function that puts this mode into effect.
    pub fn apply(&self) -> (blend: BlendFunc)
        ensures
            blend == self.spec_apply(),
    {
        match self {
            TransparencyMode::Normal => BlendFunc {
                equation: func_add(),
                source: src_alpha(),
                destination: one_minus_src_alpha(),
            },
            TransparencyMode::Replace => BlendFunc {
                equation: func_add(),
                source: src_alpha(),
                destination: zero(),
            },
        }
    }
}

/// A request to draw a run of primitives from the bound vertex object.
/// `range` counts primitives: triangles, or the points of a line strip.
#[derive(Debug, PartialEq, Eq)]
pub enum DrawArrays {
    Triangles { range: Range<i32> },
    LineStrip { range: Range<i32>, line_width: u32, point_size: u32 },
}

/// The driver's draw call that carries out a [`DrawArrays`]: `count`
/// vertices from vertex `first` on, assembled as the mode of number `mode`
/// says.
#[derive(Debug, Clone, Copy, PartialEq, Eq, Structural)]
pub struct DrawCall {
    pub mode: u32,
    pub first: i32,
    pub count: i32,
}

impl DrawArrays {
    /// The number of the driver's mode for the primitives this request
    /// draws.
    pub open spec fn mode(&self) -> u32 {
        match self {
            DrawArrays::Triangles { .. } => 0x0004,
            DrawArrays::LineStrip { .. } => 0x0003,
        }
    }

    /// The run of primitives this request draws.
    pub open spec fn range(&self) -> Range<i32> {
        match self {
            DrawArrays::Triangles { range } => *range,
            DrawArrays::LineStrip { range, .. } => *range,
        }
    }

    /// Number of vertices that make one primitive of the run: three to a
    /// triangle, one to each further point of a line strip.
    pub open spec fn scale(&self) -> int {
        match self {
            DrawArrays::Triangles { .. } => 3,
            DrawArrays::LineStrip { .. } => 1,
        }
    }

    /// The number of vertices the request covers.
    pub open spec fn vertices(&self) -> int {
        (self.range().end - self.range().start) * self.scale()
    }

    /// The draw call that carries out this request.
    pub fn exec(&self) -> (call: DrawCall)
        requires
            i32::MIN <= self.range().end - self.range().start <= i32::MAX,
            i32::MIN <= self.vertices() <= i32::MAX,
        ensures
            call.mode == self.mode(),
            call.first == self.range().start,
            call.count == self.vertices(),
    {
        match self {
            DrawArrays::Triangles { range } => DrawCall {
                mode: triangles(),
                first: range.start,
                count: (range.end - range.start) * 3,
            },
            DrawArrays::LineStrip { range, .. } => DrawCall {
                mode: line_strip(),
                first: range.start,
                count: (range.end - range.start) * 1,
            },
        }
    }
}

} // verus!
