//! A stroke-vector text overlay.
//!
//! Every supported character is a short list of line segments between the
//! points of one shared template grid. The glyphs are uploaded once, one
//! vertex array each, and a string is drawn with one draw call per
//! character, positioned through uniforms.

use vstd::prelude::*;
use vstd::string::*;
use crate::buffer::BufferUsage;
use crate::commands::{
    cursor_advances, draw_calls, lemma_counts_add_up, lemma_counts_after_push, vertices_drawn,
    Command, DrawMode,
};
use crate::program::ProgramBuilder;
use crate::shader::{ShaderType, STAGE_COUNT};

verus! {

/// Number of points in the template grid.
pub const NUM_VERTS: usize = 15;

/// The template grid, three columns by five rows, in quarters of the glyph
/// height: a point `[x, y]` lies at `(x / 4, y / 4)` of the unit square.
///
/// ```text
///  0 -  1 -  2
///  3 -  4 -  5
///  6 -  7 -  8
///  9 - 10 - 11
/// 12 - 13 - 14
/// ```
pub const VERTS: [[u8; 2]; 15] = [
    [0, 4], [1, 4], [2, 4],
    [0, 3], [1, 3], [2, 3],
    [0, 2], [1, 2], [2, 2],
    [0, 1], [1, 1], [2, 1],
    [0, 0], [1, 0], [2, 0],
];

/// Number of template units that make up the glyph height.
pub const TEMPLATE_UNITS: u8 = 4;

/// Code of the first supported character, `'!'`.
pub const START_CHAR: usize = 33;

/// Code of the last supported character, `'Z'`.
pub const END_CHAR: usize = 90;

/// Number of supported characters.
pub const NUM_CHARS: usize = 1 + END_CHAR - START_CHAR;

/// Largest number of line vertices in one glyph.
pub const MAX_GLYPH_VERTICES: usize = 14;

/// The stroke table. A row starts with the number of line vertices of its
/// glyph; that many template point indices follow, two for each segment.
pub const LETTERS: [[i32; 15]; 58] = [
    [4, 1, 7, 13, 14, 0, 0, 0, 0, 0, 0, 0, 0, 0, 0],  // !
    [4, 1, 4, 2, 5, 0, 0, 0, 0, 0, 0, 0, 0, 0, 0],  // "
    [8, 0, 12, 2, 14, 3, 5, 9, 11, 0, 0, 0, 0, 0, 0],  // #
    [8, 2, 3, 3, 11, 11, 12, 1, 13, 0, 0, 0, 0, 0, 0],  // $
    [14, 2, 12, 0, 3, 3, 1, 1, 0, 11, 13, 13, 14, 14, 11],  // %
    [14, 14, 3, 3, 1, 1, 7, 7, 9, 9, 12, 12, 13, 13, 11],  // &
    [2, 1, 4, 0, 0, 0, 0, 0, 0, 0, 0, 0, 0, 0, 0],  // '
    [6, 1, 3, 3, 9, 9, 13, 0, 0, 0, 0, 0, 0, 0, 0],  // (
    [6, 1, 5, 5, 11, 11, 13, 0, 0, 0, 0, 0, 0, 0, 0],  // )
    [6, 0, 8, 6, 2, 1, 7, 0, 0, 0, 0, 0, 0, 0, 0],  // *
    [4, 6, 8, 4, 10, 0, 0, 0, 0, 0, 0, 0, 0, 0, 0],  // +
    [2, 10, 12, 0, 0, 0, 0, 0, 0, 0, 0, 0, 0, 0, 0],  // ,
    [2, 6, 8, 0, 0, 0, 0, 0, 0, 0, 0, 0, 0, 0, 0],  // -
    [8, 12, 13, 13, 10, 10, 9, 9, 12, 0, 0, 0, 0, 0, 0],  // .
    [2, 2, 12, 0, 0, 0, 0, 0, 0, 0, 0, 0, 0, 0, 0],  // /
    [10, 0, 2, 2, 14, 14, 12, 12, 0, 0, 14, 0, 0, 0, 0],  // 0
    [6, 3, 1, 1, 13, 12, 14, 0, 0, 0, 0, 0, 0, 0, 0],  // 1
    [10, 3, 1, 1, 5, 5, 8, 8, 12, 12, 14, 0, 0, 0, 0],  // 2
    [12, 0, 1, 1, 5, 5, 11, 11, 13, 13, 12, 8, 7, 0, 0],  // 3
    [6, 14, 2, 2, 6, 6, 8, 0, 0, 0, 0, 0, 0, 0, 0],  // 4
    [12, 2, 0, 0, 6, 6, 7, 7, 11, 11, 13, 13, 12, 0, 0],  // 5
    [14, 2, 1, 1, 3, 3, 12, 12, 13, 13, 11, 11, 7, 7, 6],  // 6
    [4, 0, 2, 2, 12, 0, 0, 0, 0, 0, 0, 0, 0, 0, 0],  // 7
    [12, 1, 3, 3, 11, 11, 13, 13, 9, 9, 5, 5, 1, 0, 0],  // 8
    [10, 2, 1, 1, 3, 3, 7, 7, 8, 2, 14, 0, 0, 0, 0],  // 9
    [4, 1, 4, 10, 13, 0, 0, 0, 0, 0, 0, 0, 0, 0, 0],  // :
    [4, 1, 4, 10, 12, 0, 0, 0, 0, 0, 0, 0, 0, 0, 0],  // ;
    [4, 5, 6, 6, 11, 0, 0, 0, 0, 0, 0, 0, 0, 0, 0],  // <
    [4, 5, 3, 9, 11, 0, 0, 0, 0, 0, 0, 0, 0, 0, 0],  // =
    [4, 3, 8, 8, 9, 0, 0, 0, 0, 0, 0, 0, 0, 0, 0],  // >
    [8, 3, 1, 1, 5, 5, 7, 7, 10, 0, 0, 0, 0, 0, 0],  // ?
    [14, 4, 7, 7, 8, 8, 5, 5, 1, 1, 3, 3, 9, 9, 14],  // @
    [10, 1, 6, 1, 8, 6, 12, 8, 14, 6, 8, 0, 0, 0, 0],  // A
    [14, 0, 12, 0, 5, 5, 7, 7, 6, 7, 11, 11, 13, 13, 12],  // B
    [10, 2, 1, 1, 3, 3, 9, 9, 13, 13, 14, 0, 0, 0, 0],  // C
    [12, 0, 1, 1, 5, 5, 11, 11, 13, 13, 12, 12, 0, 0, 0],  // D
    [8, 0, 12, 0, 2, 6, 7, 12, 14, 0, 0, 0, 0, 0, 0],  // E
    [6, 0, 12, 0, 2, 6, 7, 0, 0, 0, 0, 0, 0, 0, 0],  // F
    [14, 2, 1, 1, 3, 3, 9, 9, 13, 13, 11, 11, 8, 8, 7],  // G
    [6, 0, 12, 6, 8, 2, 14, 0, 0, 0, 0, 0, 0, 0, 0],  // H
    [6, 0, 2, 1, 13, 12, 14, 0, 0, 0, 0, 0, 0, 0, 0],  // I
    [8, 1, 2, 2, 11, 11, 13, 13, 9, 0, 0, 0, 0, 0, 0],  // J
    [6, 0, 12, 6, 2, 6, 14, 0, 0, 0, 0, 0, 0, 0, 0],  // K
    [4, 0, 12, 12, 14, 0, 0, 0, 0, 0, 0, 0, 0, 0, 0],  // L
    [8, 0, 12, 0, 7, 7, 2, 2, 14, 0, 0, 0, 0, 0, 0],  // M
    [6, 0, 12, 0, 14, 14, 2, 0, 0, 0, 0, 0, 0, 0, 0],  // N
    [12, 1, 5, 5, 11, 11, 13, 13, 9, 9, 3, 3, 1, 0, 0],  // O
    [10, 0, 12, 0, 1, 1, 5, 5, 7, 7, 6, 0, 0, 0, 0],  // P
    [12, 0, 12, 12, 13, 13, 11, 11, 2, 2, 0, 10, 14, 0, 0],  // Q
    [12, 0, 12, 0, 1, 1, 5, 5, 7, 7, 6, 7, 14, 0, 0],  // R
    [14, 2, 1, 1, 3, 3, 6, 6, 8, 8, 11, 11, 13, 13, 12],  // S
    [4, 0, 2, 1, 13, 0, 0, 0, 0, 0, 0, 0, 0, 0, 0],  // T
    [8, 0, 9, 9, 13, 13, 11, 11, 2, 0, 0, 0, 0, 0, 0],  // U
    [4, 0, 13, 13, 2, 0, 0, 0, 0, 0, 0, 0, 0, 0, 0],  // V
    [8, 0, 12, 12, 1, 1, 14, 14, 2, 0, 0, 0, 0, 0, 0],  // W
    [4, 0, 14, 2, 12, 0, 0, 0, 0, 0, 0, 0, 0, 0, 0],  // X
    [6, 0, 7, 7, 2, 7, 13, 0, 0, 0, 0, 0, 0, 0, 0],  // Y
    [6, 0, 2, 2, 12, 12, 14, 0, 0, 0, 0, 0, 0, 0, 0],  // Z
];

/// Number of components of the one vertex attribute of a glyph: a point
/// in the plane.
pub const GLYPH_COMPONENTS: [i32; 1] = [2];

/// The usage hint of a glyph's buffer: written once, drawn many times.
pub const GLYPH_USAGE: BufferUsage = BufferUsage::StaticDraw;

/// How far the cursor moves on after each character, as a fraction of the
/// horizontal glyph scale: numerator and denominator of 0.675.
pub const ADVANCE: (u32, u32) = (27, 40);

/// Number of line vertices of the glyph in slot `slot`.
pub open spec fn vertex_count_of(slot: int) -> int {
    LETTERS[slot][0] as int
}

/// Template point index of line vertex `k` of the glyph in slot `slot`.
pub open spec fn point_of(slot: int, k: int) -> int {
    LETTERS[slot][1 + k] as int
}

/// The flattened vertex data of the glyph in slot `slot`: for each line
/// vertex the two template coordinates of its point.
pub open spec fn glyph_points(slot: int) -> Seq<u8> {
    Seq::new(
        (2 * vertex_count_of(slot)) as nat,
        |j: int| VERTS[point_of(slot, j / 2)][j % 2],
    )
}

/// Row `slot` of the stroke table is sound: an even vertex count that the
/// row has room for, and only indices of template points.
pub open spec fn row_is_sound(slot: int) -> bool {
    &&& 0 <= vertex_count_of(slot) <= MAX_GLYPH_VERTICES
    &&& vertex_count_of(slot) % 2 == 0
    &&& forall|k: int| 0 <= k < 14 ==> 0 <= #[trigger] point_of(slot, k) < NUM_VERTS
}

/// Every row of the stroke table is sound.
pub proof fn lemma_table_is_sound()
    ensures
        forall|slot: int| 0 <= slot < NUM_CHARS ==> #[trigger] row_is_sound(slot),
{
    assert forall|slot: int| 0 <= slot < NUM_CHARS implies #[trigger] row_is_sound(slot) by {
        lemma_row_is_sound(slot);
    }
}

proof fn lemma_row_is_sound(slot: int)
    requires
        0 <= slot < NUM_CHARS,
    ensures
        row_is_sound(slot),
{
}

/// Source of the vertex stage of the text program: it scales a template
/// point and moves it to the cursor.
pub const VERTEX_SHADER_CODE: &'static str = "
#version 430 core
layout (location=0) in vec2 position;
uniform vec2 offset;
uniform vec2 scale;
void main() {
    float x = position.x * scale.x + offset.x;
    float y = position.y * scale.y + offset.y;
    gl_Position = vec4(x, y, -1.0, 1.0);
}
";

/// Source of the fragment stage of the text program: solid white.
pub const FRAGMENT_SHADER_CODE: &'static str = "
#version 430 core
out vec4 f_color;
void main() {
    f_color = vec4(1.0, 1.0, 1.0, 1.0);
}
";

/// Name of the uniform that receives the cursor position.
pub const OFFSET_UNIFORM: &'static str = "offset";

/// Name of the uniform that receives the glyph scale.
pub const SCALE_UNIFORM: &'static str = "scale";

/// Code of a character after ASCII lower-case letters are turned into
/// upper-case ones.
pub open spec fn upper_code(c: char) -> int {
    if 'a' <= c <= 'z' {
        c as int - 32
    } else {
        c as int
    }
}

/// The slot of the glyph that stands for `c`, if `c` is supported: the
/// characters from `'!'` to `'Z'`, and the lower-case letters, which share
/// the glyphs of the upper-case ones.
pub open spec fn glyph_slot(c: char) -> Option<int> {
    if START_CHAR <= upper_code(c) <= END_CHAR {
        Some(upper_code(c) - START_CHAR)
    } else {
        None
    }
}

/// The slot of the glyph that stands for `c`, if `c` is supported.
pub fn glyph_index(c: char) -> (slot: Option<usize>)
    ensures
        slot is Some <==> glyph_slot(c) is Some,
        slot matches Some(i) ==> glyph_slot(c) == Some(i as int) && i < NUM_CHARS,
{
    let code: u32 = c as u32;
    let upper: u32 = if 97 <= code && code <= 122 {
        code - 32
    } else {
        code
    };
    if START_CHAR as u32 <= upper && upper <= END_CHAR as u32 {
        Some((upper - START_CHAR as u32) as usize)
    } else {
        None
    }
}

/// Number of line vertices of the glyph in slot `slot`: the first entry of
/// its row in the stroke table.
pub fn glyph_vertex_count(slot: usize) -> (count: i32)
    requires
        slot < NUM_CHARS,
    ensures
        count == vertex_count_of(slot as int),
        count == LETTERS[slot as int][0],
        0 <= count <= MAX_GLYPH_VERTICES,
{
    proof {
        lemma_row_is_sound(slot as int);
    }
    LETTERS[slot][0]
}

/// The vertex data of the glyph in slot `slot`, two template coordinates
/// for each line vertex, in the order of the stroke table.
pub fn glyph_vertices(slot: usize) -> (points: Vec<u8>)
    requires
        slot < NUM_CHARS,
    ensures
        points@ == glyph_points(slot as int),
        points@.len() == 2 * vertex_count_of(slot as int),
{
    proof {
        lemma_row_is_sound(slot as int);
    }
    let count: usize = LETTERS[slot][0] as usize;
    let mut points: Vec<u8> = Vec::new();
    let mut k: usize = 0;
    while k < count
        invariant
            slot < NUM_CHARS,
            row_is_sound(slot as int),
            count == vertex_count_of(slot as int),
            k <= count,
            points@.len() == 2 * k,
            forall|j: int| 0 <= j < 2 * k ==> points@[j] == #[trigger] glyph_points(slot as int)[j],
        decreases count - k,
    {
        assert(0 <= point_of(slot as int, k as int) < NUM_VERTS);
        let point: usize = LETTERS[slot][1 + k] as usize;
        points.push(VERTS[point][0]);
        points.push(VERTS[point][1]);
        k = k + 1;
    }
    assert(points@ =~= glyph_points(slot as int));
    points
}

/// The GPU objects of one glyph.
#[derive(Debug, Clone, Copy, PartialEq, Eq, Structural)]
pub struct VertexArray {
    /// The buffer that holds the vertex data.
    pub buffer: u32,
    /// The vertex array that reads the buffer.
    pub vao: u32,
    /// Number of line vertices to draw.
    pub vcount: i32,
}

/// The text overlay: its program, the uniforms through which glyphs are
/// placed, and one vertex array for each supported character.
///
/// A context owns its GPU objects until [`SimpleTextContext::release`]
/// hands them back; after that it draws nothing.
#[derive(Debug)]
pub struct SimpleTextContext {
    program: u32,
    vertex_arrays: Vec<VertexArray>,
    offset_uniform_location: i32,
    scale_uniform_location: i32,
}

impl SimpleTextContext {
    #[verifier::type_invariant]
    spec fn well_formed(&self) -> bool {
        self.vertex_arrays@.len() == 0 || self.complete()
    }

    /// The program of the overlay.
    pub closed spec fn program(&self) -> u32 {
        self.program
    }

    /// The glyphs of the overlay, by slot; empty once released.
    pub closed spec fn glyphs(&self) -> Seq<VertexArray> {
        self.vertex_arrays@
    }

    /// Location of the uniform that receives the cursor position.
    pub closed spec fn offset_location(&self) -> i32 {
        self.offset_uniform_location
    }

    /// Location of the uniform that receives the glyph scale.
    pub closed spec fn scale_location(&self) -> i32 {
        self.scale_uniform_location
    }

    /// Every supported character has its glyph, with the vertex count of
    /// the stroke table.
    pub open spec fn complete(&self) -> bool {
        &&& self.glyphs().len() == NUM_CHARS
        &&& forall|slot: int|
            0 <= slot < NUM_CHARS ==> (#[trigger] self.glyphs()[slot]).vcount == vertex_count_of(
                slot,
            )
    }

    /// The context has given up its GPU objects.
    pub open spec fn released(&self) -> bool {
        self.glyphs().len() == 0
    }

    /// What one character contributes to a drawn string: a supported one
    /// places the cursor, binds its glyph and draws all line vertices of
    /// it; every character, supported or not, then moves the cursor on.
    pub open spec fn glyph_run(&self, c: char) -> Seq<Command> {
        match glyph_slot(c) {
            Some(slot) => seq![
                Command::SetTextOffset { location: self.offset_location() },
                Command::BindVertexArray { vertex_array: self.glyphs()[slot].vao },
                Command::DrawArrays {
                    mode: DrawMode::Lines,
                    first: 0,
                    count: self.glyphs()[slot].vcount,
                },
                Command::AdvanceCursor,
            ],
            None => seq![Command::AdvanceCursor],
        }
    }

    /// The runs of all characters of `text`, in reading order.
    pub open spec fn glyph_runs(&self, text: Seq<char>) -> Seq<Command>
        decreases text.len(),
    {
        if text.len() == 0 {
            Seq::empty()
        } else {
            self.glyph_runs(text.drop_last()) + self.glyph_run(text.last())
        }
    }

    /// The commands that draw `text`: none for the empty string; else the
    /// program is bound and the scale set, once, before the runs of the
    /// characters.
    pub open spec fn text_commands(&self, text: Seq<char>) -> Seq<Command> {
        if text.len() == 0 || self.released() {
            Seq::empty()
        } else {
            seq![
                Command::UseProgram { program: self.program() },
                Command::SetTextScale { location: self.scale_location() },
            ] + self.glyph_runs(text)
        }
    }

    /// The commands that delete the objects of the overlay: for each glyph
    /// its vertex array and its buffer, then the program.
    pub open spec fn release_commands(&self) -> Seq<Command> {
        if self.released() {
            Seq::empty()
        } else {
            Seq::new(
                2 * self.glyphs().len(),
                |j: int|
                    if j % 2 == 0 {
                        Command::DeleteVertexArray { vertex_array: self.glyphs()[j / 2].vao }
                    } else {
                        Command::DeleteBuffer { buffer: self.glyphs()[j / 2].buffer }
                    },
            ).push(Command::DeleteProgram { program: self.program() })
        }
    }

    /// The builder of the overlay's program: the two stages of
    /// [`VERTEX_SHADER_CODE`] and [`FRAGMENT_SHADER_CODE`].
    pub fn program_builder() -> (builder: ProgramBuilder)
        ensures
            builder@ == Seq::new(STAGE_COUNT as nat, |i: int| None::<Seq<char>>).update(
                ShaderType::Vertex.position(),
                Some(VERTEX_SHADER_CODE@),
            ).update(ShaderType::Fragment.position(), Some(FRAGMENT_SHADER_CODE@)),
    {
        let mut builder = ProgramBuilder::new();
        builder.vertex_shader_code(VERTEX_SHADER_CODE).fragment_shader_code(FRAGMENT_SHADER_CODE);
        builder
    }

    /// Takes ownership of the objects of a loaded overlay: the linked
    /// program, the locations of its two uniforms, and for each slot the
    /// buffer and the vertex array that hold [`glyph_vertices`] of it.
    ///
    /// `None` unless `handles` has one entry for each supported character.
    pub fn new(
        program: u32,
        offset_uniform_location: i32,
        scale_uniform_location: i32,
        handles: &[(u32, u32)],
    ) -> (context: Option<SimpleTextContext>)
        ensures
            context is Some <==> handles@.len() == NUM_CHARS,
            context matches Some(ctx) ==> {
                &&& ctx.complete()
                &&& ctx.program() == program
                &&& ctx.offset_location() == offset_uniform_location
                &&& ctx.scale_location() == scale_uniform_location
                &&& forall|slot: int|
                    0 <= slot < NUM_CHARS ==> (#[trigger] ctx.glyphs()[slot]).buffer
                        == handles@[slot].0 && ctx.glyphs()[slot].vao == handles@[slot].1
            },
    {
        if handles.len() != NUM_CHARS {
            return None;
        }
        let mut vertex_arrays: Vec<VertexArray> = Vec::new();
        let mut slot: usize = 0;
        while slot < NUM_CHARS
            invariant
                slot <= NUM_CHARS,
                handles@.len() == NUM_CHARS,
                vertex_arrays@.len() == slot,
                forall|j: int|
                    0 <= j < slot ==> {
                        &&& (#[trigger] vertex_arrays@[j]).vcount == vertex_count_of(j)
                        &&& vertex_arrays@[j].buffer == handles@[j].0
                        &&& vertex_arrays@[j].vao == handles@[j].1
                    },
            decreases NUM_CHARS - slot,
        {
            let (buffer, vao) = handles[slot];
            vertex_arrays.push(VertexArray { buffer, vao, vcount: glyph_vertex_count(slot) });
            slot = slot + 1;
        }
        Some(
            SimpleTextContext {
                program,
                vertex_arrays,
                offset_uniform_location,
                scale_uniform_location,
            },
        )
    }

    /// The glyph in slot `slot`.
    pub fn glyph(&self, slot: usize) -> (glyph: Option<VertexArray>)
        ensures
            glyph == if slot < self.glyphs().len() {
                Some(self.glyphs()[slot as int])
            } else {
                None
            },
    {
        if slot < self.vertex_arrays.len() {
            Some(self.vertex_arrays[slot])
        } else {
            None
        }
    }

    /// The commands that draw `text` from the current cursor position.
    ///
    /// Nothing at all is done for the empty string. Characters without a
    /// glyph leave a gap of one character cell.
    pub fn draw_text(&self, text: &str) -> (commands: Vec<Command>)
        ensures
            commands@ == self.text_commands(text@),
            text@.len() == 0 ==> commands@.len() == 0,
    {
        proof {
            use_type_invariant(self);
        }
        let mut commands: Vec<Command> = Vec::new();
        let length: usize = text.unicode_len();
        if length == 0 || self.vertex_arrays.len() == 0 {
            return commands;
        }
        commands.push(Command::UseProgram { program: self.program });
        commands.push(Command::SetTextScale { location: self.scale_uniform_location });
        let ghost head = commands@;
        for c in it: text.chars()
            invariant
                self.complete(),
                it.seq() == text@,
                commands@ == head + self.glyph_runs(text@.take(it.index())),
        {
            let ghost before = commands@;
            let ghost n = it.index();
            match glyph_index(c) {
                Some(slot) => {
                    let glyph: VertexArray = self.vertex_arrays[slot];
                    commands.push(Command::SetTextOffset { location: self.offset_uniform_location });
                    commands.push(Command::BindVertexArray { vertex_array: glyph.vao });
                    commands.push(
                        Command::DrawArrays { mode: DrawMode::Lines, first: 0, count: glyph.vcount },
                    );
                    commands.push(Command::AdvanceCursor);
                },
                None => {
                    commands.push(Command::AdvanceCursor);
                },
            }
            proof {
                let longer = text@.take(n + 1);
                assert(longer.drop_last() =~= text@.take(n));
                assert(longer.last() == c);
                assert(commands@ =~= before + self.glyph_run(c));
                assert(commands@ =~= head + self.glyph_runs(longer));
            }
        }
        proof {
            assert(text@.take(text@.len() as int) =~= text@);
        }
        commands
    }

    /// Gives up the objects of the overlay and returns the commands that
    /// delete them. A released context has nothing left to give up.
    pub fn release(&mut self) -> (commands: Vec<Command>)
        ensures
            commands@ == old(self).release_commands(),
            final(self).released(),
            final(self).release_commands() == Seq::<Command>::empty(),
    {
        proof {
            use_type_invariant(&*self);
        }
        let mut commands: Vec<Command> = Vec::new();
        let count: usize = self.vertex_arrays.len();
        if count == 0 {
            return commands;
        }
        let mut slot: usize = 0;
        while slot < count
            invariant
                slot <= count,
                count == self.vertex_arrays@.len(),
                *self == *old(self),
                commands@.len() == 2 * slot,
                forall|j: int|
                    0 <= j < 2 * slot ==> #[trigger] commands@[j] == old(self).release_commands()[j],
            decreases count - slot,
        {
            let glyph: VertexArray = self.vertex_arrays[slot];
            commands.push(Command::DeleteVertexArray { vertex_array: glyph.vao });
            commands.push(Command::DeleteBuffer { buffer: glyph.buffer });
            slot = slot + 1;
        }
        commands.push(Command::DeleteProgram { program: self.program });
        assert(commands@ =~= old(self).release_commands());
        self.vertex_arrays = Vec::new();
        self.program = 0;
        commands
    }
}

/// The glyph of a supported character has as many line vertices as the
/// first entry of its row in the stroke table says.
pub proof fn lemma_vertex_count_is_first_entry(overlay: SimpleTextContext, c: char)
    requires
        overlay.complete(),
        glyph_slot(c) is Some,
    ensures
        0 <= glyph_slot(c)->0 < NUM_CHARS,
        overlay.glyphs()[glyph_slot(c)->0].vcount == LETTERS[glyph_slot(c)->0][0],
{
}

/// Drawing a supported character takes one draw call, which draws exactly
/// the line vertices of its glyph, and moves the cursor on once.
pub proof fn lemma_supported_character(overlay: SimpleTextContext, c: char)
    requires
        overlay.complete(),
        glyph_slot(c) is Some,
    ensures
        draw_calls(overlay.glyph_run(c)) == 1,
        vertices_drawn(overlay.glyph_run(c)) == vertex_count_of(glyph_slot(c)->0),
        cursor_advances(overlay.glyph_run(c)) == 1,
{
    let slot = glyph_slot(c)->0;
    let none = Seq::<Command>::empty();
    let offset = Command::SetTextOffset { location: overlay.offset_location() };
    let bind = Command::BindVertexArray { vertex_array: overlay.glyphs()[slot].vao };
    let draw = Command::DrawArrays {
        mode: DrawMode::Lines,
        first: 0,
        count: overlay.glyphs()[slot].vcount,
    };
    lemma_counts_after_push(none, offset);
    lemma_counts_after_push(none.push(offset), bind);
    lemma_counts_after_push(none.push(offset).push(bind), draw);
    lemma_counts_after_push(none.push(offset).push(bind).push(draw), Command::AdvanceCursor);
    assert(overlay.glyph_run(c) =~= none.push(offset).push(bind).push(draw).push(
        Command::AdvanceCursor,
    ));
}

/// Drawing a character without a glyph takes no draw call, yet moves the
/// cursor on once, as any character does.
pub proof fn lemma_unsupported_character(overlay: SimpleTextContext, c: char)
    requires
        glyph_slot(c) is None,
    ensures
        overlay.glyph_run(c) == seq![Command::AdvanceCursor],
        draw_calls(overlay.glyph_run(c)) == 0,
        vertices_drawn(overlay.glyph_run(c)) == 0,
        cursor_advances(overlay.glyph_run(c)) == 1,
{
    lemma_counts_after_push(Seq::<Command>::empty(), Command::AdvanceCursor);
    assert(overlay.glyph_run(c) =~= Seq::<Command>::empty().push(Command::AdvanceCursor));
}

/// The cursor moves on once for each character of a drawn string.
pub proof fn lemma_one_advance_per_character(overlay: SimpleTextContext, text: Seq<char>)
    requires
        overlay.complete(),
    ensures
        cursor_advances(overlay.glyph_runs(text)) == text.len(),
        cursor_advances(overlay.text_commands(text)) == text.len(),
    decreases text.len(),
{
    if text.len() > 0 {
        lemma_one_advance_per_character(overlay, text.drop_last());
        if glyph_slot(text.last()) is Some {
            lemma_supported_character(overlay, text.last());
        } else {
            lemma_unsupported_character(overlay, text.last());
        }
        lemma_counts_add_up(
            overlay.glyph_runs(text.drop_last()),
            overlay.glyph_run(text.last()),
        );
        let none = Seq::<Command>::empty();
        let bind = Command::UseProgram { program: overlay.program() };
        let scale = Command::SetTextScale { location: overlay.scale_location() };
        lemma_counts_after_push(none, bind);
        lemma_counts_after_push(none.push(bind), scale);
        assert(seq![bind, scale] =~= none.push(bind).push(scale));
        lemma_counts_add_up(seq![bind, scale], overlay.glyph_runs(text));
    }
}

/// Drawing the empty string does nothing on the GPU.
pub proof fn lemma_empty_text_draws_nothing(overlay: SimpleTextContext)
    ensures
        overlay.text_commands(Seq::<char>::empty()) == Seq::<Command>::empty(),
{
}

} // verus!
