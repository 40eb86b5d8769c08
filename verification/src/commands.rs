//! The vocabulary in which the crate tells its caller what to do on the GPU.
//!
//! A command names one call of the graphics API together with every integer
//! argument of it. Arguments that are real numbers (a scale, a cursor
//! position, a matrix) are owned by the caller; the command says which
//! uniform receives them and when.

use vstd::prelude::*;

verus! {

/// Primitive assembly of a draw call.
#[derive(Clone, Copy, Debug, PartialEq, Eq, Structural)]
pub enum DrawMode {
    /// Every three vertices form a triangle.
    Triangles,
    /// Every two vertices form a line segment.
    Lines,
}

/// One call of the graphics API.
#[derive(Clone, Copy, Debug, PartialEq, Eq, Structural)]
pub enum Command {
    /// Clear the colour and depth buffers.
    ClearFrame,
    /// Make `program` the current program.
    UseProgram { program: u32 },
    /// Store the seconds elapsed since start-up in the uniform at `location`.
    SetElapsedTime { location: i32 },
    /// Store the view-projection matrix in the uniform at `location`.
    SetViewProjection { location: i32 },
    /// Select texture unit number `unit`.
    ActiveTexture { unit: usize },
    /// Bind the 2D texture `texture` to the selected unit.
    BindTexture { texture: u32 },
    /// Point the sampler uniform at `location` to texture unit `unit`.
    SetSampler { location: i32, unit: usize },
    /// Bind the vertex array `vertex_array`.
    BindVertexArray { vertex_array: u32 },
    /// Draw `count` vertices of the bound vertex array, starting at `first`.
    DrawArrays { mode: DrawMode, first: i32, count: i32 },
    /// Store the glyph scale in the uniform at `location`.
    SetTextScale { location: i32 },
    /// Store the current cursor position in the uniform at `location`.
    SetTextOffset { location: i32 },
    /// Move the cursor one character cell to the right.
    AdvanceCursor,
    /// Delete the texture `texture`.
    DeleteTexture { texture: u32 },
    /// Delete the vertex array `vertex_array`.
    DeleteVertexArray { vertex_array: u32 },
    /// Delete the buffer `buffer`.
    DeleteBuffer { buffer: u32 },
    /// Delete the program `program`.
    DeleteProgram { program: u32 },
    /// Delete the shader object `shader`.
    DeleteShader { shader: u32 },
}

/// Number of draw calls among `commands`.
pub open spec fn draw_calls(commands: Seq<Command>) -> nat
    decreases commands.len(),
{
    if commands.len() == 0 {
        0
    } else {
        draw_calls(commands.drop_last()) + if commands.last() is DrawArrays {
            1nat
        } else {
            0nat
        }
    }
}

/// Number of vertices that the draw calls among `commands` draw in all.
pub open spec fn vertices_drawn(commands: Seq<Command>) -> int
    decreases commands.len(),
{
    if commands.len() == 0 {
        0
    } else {
        vertices_drawn(commands.drop_last()) + match commands.last() {
            Command::DrawArrays { count, .. } => count as int,
            _ => 0,
        }
    }
}

/// Number of times that `commands` move the cursor on.
pub open spec fn cursor_advances(commands: Seq<Command>) -> nat
    decreases commands.len(),
{
    if commands.len() == 0 {
        0
    } else {
        cursor_advances(commands.drop_last()) + if commands.last() is AdvanceCursor {
            1nat
        } else {
            0nat
        }
    }
}

/// One more command adds what it does to what the list did before.
pub proof fn lemma_counts_after_push(commands: Seq<Command>, last: Command)
    ensures
        draw_calls(commands.push(last)) == draw_calls(commands) + if last is DrawArrays {
            1nat
        } else {
            0nat
        },
        vertices_drawn(commands.push(last)) == vertices_drawn(commands) + match last {
            Command::DrawArrays { count, .. } => count as int,
            _ => 0,
        },
        cursor_advances(commands.push(last)) == cursor_advances(commands)
            + if last is AdvanceCursor {
            1nat
        } else {
            0nat
        },
{
    assert(commands.push(last).drop_last() =~= commands);
}

/// What two command lists do one after the other adds up.
pub proof fn lemma_counts_add_up(first: Seq<Command>, second: Seq<Command>)
    ensures
        draw_calls(first + second) == draw_calls(first) + draw_calls(second),
        vertices_drawn(first + second) == vertices_drawn(first) + vertices_drawn(second),
        cursor_advances(first + second) == cursor_advances(first) + cursor_advances(second),
    decreases second.len(),
{
    if second.len() == 0 {
        assert(first + second =~= first);
    } else {
        lemma_counts_add_up(first, second.drop_last());
        assert((first + second).drop_last() =~= first + second.drop_last());
        assert((first + second).last() == second.last());
    }
}

} // verus!
