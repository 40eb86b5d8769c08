//! Shader stages, their sources, and the assembly of a linked program.
//!
//! Compiling and linking happen on the GPU, outside this crate. What is
//! decided here is which stages are compiled and in which order, when the
//! assembly stops, what the error says, and which objects must be deleted
//! so that none is leaked. [`ProgramBuild`] holds those decisions: it asks
//! for one operation at a time and is told how each one went.

use vstd::prelude::*;
use vstd::string::*;
use crate::error::Error;

verus! {

/// Number of shader stages.
pub const STAGE_COUNT: usize = 6;

/// A stage of the programmable pipeline.
#[derive(Debug, Clone, Copy, PartialEq, Eq, Structural)]
pub enum ShaderType {
    Vertex,
    Fragment,
    TessControl,
    TessEval,
    Geometry,
    Compute,
}

/// The stage constants of the `gl` crate, `gl::VERTEX_SHADER` to
/// `gl::COMPUTE_SHADER`, in the order of the variants of [`ShaderType`].
/// The contract gives each constant the value that the OpenGL registry
/// assigns to it; nothing verifies that the bindings agree.
#[verifier::external_body]
fn gl_stage_constants() -> (table: [u32; 6])
    ensures
        table@ == seq![0x8B31u32, 0x8B30u32, 0x8E88u32, 0x8E87u32, 0x8DD9u32, 0x91B9u32],
{
    [
        gl::VERTEX_SHADER,
        gl::FRAGMENT_SHADER,
        gl::TESS_CONTROL_SHADER,
        gl::TESS_EVALUATION_SHADER,
        gl::GEOMETRY_SHADER,
        gl::COMPUTE_SHADER,
    ]
}

/// The stages in the order in which they are compiled.
pub open spec fn stage_order() -> Seq<ShaderType> {
    seq![
        ShaderType::Vertex,
        ShaderType::Fragment,
        ShaderType::TessControl,
        ShaderType::TessEval,
        ShaderType::Geometry,
        ShaderType::Compute,
    ]
}

impl ShaderType {
    /// Position of the stage in [`stage_order`].
    pub open spec fn position(self) -> int {
        match self {
            ShaderType::Vertex => 0,
            ShaderType::Fragment => 1,
            ShaderType::TessControl => 2,
            ShaderType::TessEval => 3,
            ShaderType::Geometry => 4,
            ShaderType::Compute => 5,
        }
    }

    /// The enumerant that stands for this stage in the graphics API.
    pub open spec fn gl_enum(self) -> u32 {
        match self {
            ShaderType::Vertex => 0x8B31,
            ShaderType::Fragment => 0x8B30,
            ShaderType::TessControl => 0x8E88,
            ShaderType::TessEval => 0x8E87,
            ShaderType::Geometry => 0x8DD9,
            ShaderType::Compute => 0x91B9,
        }
    }

    /// The name of the stage as it appears in diagnostics.
    pub open spec fn name(self) -> Seq<char> {
        match self {
            ShaderType::Vertex => "vertex"@,
            ShaderType::Fragment => "fragment"@,
            ShaderType::TessControl => "tess control"@,
            ShaderType::TessEval => "tess eval"@,
            ShaderType::Geometry => "geometry"@,
            ShaderType::Compute => "compute"@,
        }
    }

    /// All stages, in the order in which they are compiled.
    pub fn each() -> (all: [ShaderType; 6])
        ensures
            all@ == stage_order(),
    {
        let all = [
            ShaderType::Vertex,
            ShaderType::Fragment,
            ShaderType::TessControl,
            ShaderType::TessEval,
            ShaderType::Geometry,
            ShaderType::Compute,
        ];
        assert(all@ =~= stage_order());
        all
    }

    /// Position of the stage in [`ShaderType::each`].
    pub fn index(self) -> (i: usize)
        ensures
            i == self.position(),
            i < STAGE_COUNT,
    {
        match self {
            ShaderType::Vertex => 0,
            ShaderType::Fragment => 1,
            ShaderType::TessControl => 2,
            ShaderType::TessEval => 3,
            ShaderType::Geometry => 4,
            ShaderType::Compute => 5,
        }
    }

    /// The enumerant that stands for this stage in the graphics API.
    pub fn as_gl_enum(self) -> (e: u32)
        ensures
            e == self.gl_enum(),
    {
        let table: [u32; 6] = gl_stage_constants();
        table[self.index()]
    }

    /// The name of the stage as it appears in diagnostics.
    pub fn short_name(self) -> (name: &'static str)
        ensures
            name@ == self.name(),
    {
        match self {
            ShaderType::Vertex => "vertex",
            ShaderType::Fragment => "fragment",
            ShaderType::TessControl => "tess control",
            ShaderType::TessEval => "tess eval",
            ShaderType::Geometry => "geometry",
            ShaderType::Compute => "compute",
        }
    }
}

/// The text of an optional string.
pub open spec fn text_of(source: Option<String>) -> Option<Seq<char>> {
    match source {
        Some(s) => Some(s@),
        None => None,
    }
}

/// Source text for each stage that has any.
#[derive(Debug, Clone)]
pub struct ShaderCode {
    code: [Option<String>; 6],
}

impl View for ShaderCode {
    type V = Seq<Option<Seq<char>>>;

    /// One entry per stage, in [`stage_order`].
    closed spec fn view(&self) -> Seq<Option<Seq<char>>> {
        Seq::new(STAGE_COUNT as nat, |i: int| text_of(self.code@[i]))
    }
}

impl ShaderCode {
    /// There is one entry for each stage.
    pub proof fn lemma_one_entry_per_stage(&self)
        ensures
            self@.len() == STAGE_COUNT,
    {
    }

    /// A set of sources in which no stage has one.
    pub fn new() -> (code: ShaderCode)
        ensures
            code@ == Seq::new(STAGE_COUNT as nat, |i: int| None::<Seq<char>>),
    {
        let code = ShaderCode { code: [None, None, None, None, None, None] };
        assert(code@ =~= Seq::new(STAGE_COUNT as nat, |i: int| None::<Seq<char>>));
        code
    }

    /// The source of stage `ty`, if it has one.
    pub fn get(&self, ty: ShaderType) -> (source: &Option<String>)
        ensures
            text_of(*source) == self@[ty.position()],
    {
        &self.code[ty.index()]
    }

    /// Gives stage `ty` the source `source`, or none.
    pub fn set(&mut self, ty: ShaderType, source: Option<String>)
        ensures
            final(self)@ == old(self)@.update(ty.position(), text_of(source)),
    {
        let i: usize = ty.index();
        self.code[i] = source;
        assert(self@ =~= old(self)@.update(ty.position(), text_of(source)));
    }
}

/// The sources of `base`, replaced by those of `over` wherever `over` has
/// one.
pub open spec fn overlay(base: Seq<Option<Seq<char>>>, over: Seq<Option<Seq<char>>>) -> Seq<
    Option<Seq<char>>,
> {
    Seq::new(
        STAGE_COUNT as nat,
        |i: int|
            if over[i] is Some {
                over[i]
            } else {
                base[i]
            },
    )
}

} // verus!
