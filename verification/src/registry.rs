//! The GPU objects of the world scene: who owns them, how a frame draws
//! them, and how they are given back.

use vstd::prelude::*;
use crate::buffer::BufferUsage;
use crate::commands::{Command, DrawMode};
use crate::error::Error;
use crate::layout::component_sum;

verus! {

/// The usage hint of a geometry buffer: written once, drawn many times.
pub const GEOMETRY_USAGE: BufferUsage = BufferUsage::StaticDraw;

/// A texture and the sampler uniform it is bound to.
#[derive(Debug, Clone, Copy, PartialEq, Eq, Structural)]
pub struct Texture {
    /// Name of the texture object.
    pub id: u32,
    /// Location of the sampler uniform that reads the texture.
    pub uniform_location: i32,
    /// Width in pixels.
    pub width: i32,
    /// Height in pixels.
    pub height: i32,
}

/// A vertex array and the number of vertices it draws.
#[derive(Debug, Clone, Copy, PartialEq, Eq, Structural)]
pub struct VertexArray {
    /// Name of the vertex array object.
    pub id: u32,
    /// Number of vertices in the buffer behind it.
    pub vertex_count: i32,
}

/// The floats of a geometry block divide evenly into vertices of
/// `components`, and their number fits the count of a draw call.
pub open spec fn divides_into_vertices(total_floats: nat, components: Seq<i32>) -> bool {
    &&& 0 < component_sum(components) <= i32::MAX
    &&& total_floats <= i32::MAX
    &&& total_floats % (component_sum(components) as nat) == 0
}

/// Number of vertices in a block of `total_floats` floats whose vertices
/// have the attributes `components`.
///
/// A block that does not divide evenly is malformed: it is rejected, never
/// cut short.
pub fn vertex_count(total_floats: usize, components: &[i32]) -> (count: Result<i32, Error>)
    ensures
        count is Ok <==> divides_into_vertices(total_floats as nat, components@),
        count matches Ok(n) ==> n == total_floats as int / component_sum(components@),
        count matches Err(e) ==> e@ == "vertices do not match the vertex components"@,
{
    let mut sum: i128 = 0;
    let mut i: usize = 0;
    while i < components.len()
        invariant
            i <= components@.len(),
            sum == component_sum(components@.take(i as int)),
            -(i as int) * 0x8000_0000 <= sum <= (i as int) * 0x8000_0000,
        decreases components@.len() - i,
    {
        proof {
            crate::layout::lemma_sum_step(components@, i as int);
            assert((i as int) * 0x8000_0000 <= 0x1_0000_0000_0000_0000 * 0x8000_0000)
                by (nonlinear_arith)
                requires
                    i <= 0x1_0000_0000_0000_0000,
            ;
        }
        sum = sum + components[i] as i128;
        i = i + 1;
    }
    proof {
        assert(components@.take(i as int) =~= components@);
    }
    if sum <= 0 || sum > i32::MAX as i128 || total_floats > i32::MAX as usize {
        return Err(Error::new("vertices do not match the vertex components"));
    }
    let total: i128 = total_floats as i128;
    if total % sum != 0 {
        return Err(Error::new("vertices do not match the vertex components"));
    }
    Ok((total / sum) as i32)
}

/// For each texture, in creation order: the sampler uniform of the texture
/// is pointed to the texture unit whose number is the texture's position.
pub open spec fn sampler_commands(textures: Seq<Texture>) -> Seq<Command> {
    Seq::new(
        textures.len(),
        |i: int| Command::SetSampler { location: textures[i].uniform_location, unit: i as usize },
    )
}

/// For each texture, in creation order: its unit is selected and the
/// texture bound to it.
pub open spec fn texture_commands(textures: Seq<Texture>) -> Seq<Command> {
    Seq::new(
        2 * textures.len(),
        |j: int|
            if j % 2 == 0 {
                Command::ActiveTexture { unit: (j / 2) as usize }
            } else {
                Command::BindTexture { texture: textures[j / 2].id }
            },
    )
}

/// For each vertex array, in creation order: it is bound and all its
/// vertices are drawn as triangles.
pub open spec fn geometry_commands(vertex_arrays: Seq<VertexArray>) -> Seq<Command> {
    Seq::new(
        2 * vertex_arrays.len(),
        |j: int|
            if j % 2 == 0 {
                Command::BindVertexArray { vertex_array: vertex_arrays[j / 2].id }
            } else {
                Command::DrawArrays {
                    mode: DrawMode::Triangles,
                    first: 0,
                    count: vertex_arrays[j / 2].vertex_count,
                }
            },
    )
}

/// The uniforms of the world program that change from frame to frame, each
/// set only if the program has it.
pub open spec fn frame_uniform_commands(time: Option<i32>, view_projection: Option<i32>) -> Seq<
    Command,
> {
    (match time {
        Some(location) => seq![Command::SetElapsedTime { location }],
        None => Seq::empty(),
    }) + (match view_projection {
        Some(location) => seq![Command::SetViewProjection { location }],
        None => Seq::empty(),
    })
}

/// The deletion of every texture in `textures`, in order.
pub open spec fn texture_deletions(textures: Seq<Texture>) -> Seq<Command> {
    Seq::new(textures.len(), |i: int| Command::DeleteTexture { texture: textures[i].id })
}

/// The deletion of every vertex array in `vertex_arrays`, in order.
pub open spec fn vertex_array_deletions(vertex_arrays: Seq<VertexArray>) -> Seq<Command> {
    Seq::new(
        vertex_arrays.len(),
        |i: int| Command::DeleteVertexArray { vertex_array: vertex_arrays[i].id },
    )
}

/// The deletion of every buffer in `buffers`, in order.
pub open spec fn buffer_deletions(buffers: Seq<u32>) -> Seq<Command> {
    Seq::new(buffers.len(), |i: int| Command::DeleteBuffer { buffer: buffers[i] })
}

/// The deletion of `program`, unless it is the name of no program.
pub open spec fn program_deletion(program: u32) -> Seq<Command> {
    if program != 0 {
        seq![Command::DeleteProgram { program }]
    } else {
        Seq::empty()
    }
}

/// Everything the world scene owns on the GPU.
///
/// Textures, vertex arrays and buffers are kept in creation order; the
/// position of a texture is the number of its texture unit. A program name
/// of zero stands for no program. A registry cannot be copied: what it
/// owns has one owner.
#[derive(Debug, PartialEq, Eq)]
pub struct GlData {
    pub textures: Vec<Texture>,
    pub program: u32,
    pub buffers: Vec<u32>,
    pub vertex_arrays: Vec<VertexArray>,
}

impl GlData {
    /// The commands that draw the scene: the program is bound once, then
    /// the per-frame uniforms are set, then every texture is bound to its
    /// unit, then every vertex array is drawn.
    pub open spec fn draw_sequence(
        &self,
        time: Option<i32>,
        view_projection: Option<i32>,
    ) -> Seq<Command> {
        seq![Command::UseProgram { program: self.program }] + frame_uniform_commands(
            time,
            view_projection,
        ) + texture_commands(self.textures@) + geometry_commands(self.vertex_arrays@)
    }

    /// The commands that tie each sampler to its texture unit.
    pub open spec fn sampler_sequence(&self) -> Seq<Command> {
        seq![Command::UseProgram { program: self.program }] + sampler_commands(self.textures@)
    }

    /// The commands that give back everything owned: the textures, the
    /// vertex arrays, the buffers and the program, in that order.
    pub open spec fn release_sequence(&self) -> Seq<Command> {
        texture_deletions(self.textures@) + vertex_array_deletions(self.vertex_arrays@)
            + buffer_deletions(self.buffers@) + program_deletion(self.program)
    }

    /// Nothing is owned.
    pub open spec fn is_empty(&self) -> bool {
        &&& self.textures@.len() == 0
        &&& self.vertex_arrays@.len() == 0
        &&& self.buffers@.len() == 0
        &&& self.program == 0
    }

    /// A registry that owns nothing.
    pub fn new() -> (data: GlData)
        ensures
            data.is_empty(),
    {
        GlData { textures: Vec::new(), program: 0, buffers: Vec::new(), vertex_arrays: Vec::new() }
    }

    /// Takes ownership of one geometry block: `buffer` holds `total_floats`
    /// floats, and `vertex_array` reads them as vertices of `components`.
    ///
    /// A block that does not divide into whole vertices is refused, and the
    /// registry stays as it was.
    pub fn add_geometry(
        &mut self,
        buffer: u32,
        vertex_array: u32,
        total_floats: usize,
        components: &[i32],
    ) -> (added: Result<(), Error>)
        ensures
            added is Ok <==> divides_into_vertices(total_floats as nat, components@),
            added is Ok ==> {
                &&& final(self).buffers@ == old(self).buffers@.push(buffer)
                &&& final(self).vertex_arrays@ == old(self).vertex_arrays@.push(
                    VertexArray {
                        id: vertex_array,
                        vertex_count: (total_floats as int / component_sum(components@)) as i32,
                    },
                )
                &&& final(self).textures == old(self).textures
                &&& final(self).program == old(self).program
            },
            added matches Err(e) ==> *final(self) == *old(self) && e@
                == "vertices do not match the vertex components"@,
    {
        match vertex_count(total_floats, components) {
            Ok(count) => {
                self.buffers.push(buffer);
                self.vertex_arrays.push(VertexArray { id: vertex_array, vertex_count: count });
                Ok(())
            },
            Err(e) => Err(e),
        }
    }

    /// Takes ownership of `texture` and gives it the next texture unit.
    pub fn add_texture(&mut self, texture: Texture) -> (unit: usize)
        ensures
            unit == old(self).textures@.len(),
            final(self).textures@ == old(self).textures@.push(texture),
            final(self).buffers == old(self).buffers,
            final(self).vertex_arrays == old(self).vertex_arrays,
            final(self).program == old(self).program,
    {
        let unit: usize = self.textures.len();
        self.textures.push(texture);
        unit
    }

    /// The commands that tie each sampler to its texture unit; they are
    /// issued once, after the last texture was added.
    pub fn bind_samplers(&self) -> (commands: Vec<Command>)
        ensures
            commands@ == self.sampler_sequence(),
    {
        let mut commands: Vec<Command> = Vec::new();
        commands.push(Command::UseProgram { program: self.program });
        let mut i: usize = 0;
        while i < self.textures.len()
            invariant
                i <= self.textures@.len(),
                commands@.len() == 1 + i,
                forall|j: int| 0 <= j < 1 + i ==> #[trigger] commands@[j] == self.sampler_sequence()[j],
            decreases self.textures@.len() - i,
        {
            commands.push(
                Command::SetSampler { location: self.textures[i].uniform_location, unit: i },
            );
            i = i + 1;
        }
        assert(commands@ =~= self.sampler_sequence());
        commands
    }

    /// The commands that draw the scene in one frame. `time` and
    /// `view_projection` are the locations of the two per-frame uniforms,
    /// where the program has them.
    pub fn draw(&self, time: Option<i32>, view_projection: Option<i32>) -> (commands: Vec<Command>)
        ensures
            commands@ == self.draw_sequence(time, view_projection),
    {
        let mut commands: Vec<Command> = Vec::new();
        commands.push(Command::UseProgram { program: self.program });
        match time {
            Some(location) => {
                commands.push(Command::SetElapsedTime { location });
            },
            None => {},
        }
        match view_projection {
            Some(location) => {
                commands.push(Command::SetViewProjection { location });
            },
            None => {},
        }
        let ghost head = commands@;
        assert(head =~= seq![Command::UseProgram { program: self.program }]
            + frame_uniform_commands(time, view_projection));
        let mut i: usize = 0;
        while i < self.textures.len()
            invariant
                i <= self.textures@.len(),
                commands@ == head + texture_commands(self.textures@).take(2 * i),
            decreases self.textures@.len() - i,
        {
            commands.push(Command::ActiveTexture { unit: i });
            commands.push(Command::BindTexture { texture: self.textures[i].id });
            assert(commands@ =~= head + texture_commands(self.textures@).take(2 * (i + 1)));
            i = i + 1;
        }
        let ghost middle = commands@;
        assert(middle =~= head + texture_commands(self.textures@));
        let mut k: usize = 0;
        while k < self.vertex_arrays.len()
            invariant
                k <= self.vertex_arrays@.len(),
                commands@ == middle + geometry_commands(self.vertex_arrays@).take(2 * k),
            decreases self.vertex_arrays@.len() - k,
        {
            commands.push(Command::BindVertexArray { vertex_array: self.vertex_arrays[k].id });
            commands.push(
                Command::DrawArrays {
                    mode: DrawMode::Triangles,
                    first: 0,
                    count: self.vertex_arrays[k].vertex_count,
                },
            );
            assert(commands@ =~= middle + geometry_commands(self.vertex_arrays@).take(
                2 * (k + 1),
            ));
            k = k + 1;
        }
        assert(commands@ =~= middle + geometry_commands(self.vertex_arrays@));
        commands
    }

    /// Gives up everything owned and returns the commands that delete it:
    /// textures first, then vertex arrays, then buffers, then the program.
    /// Afterwards the registry is empty, so that a second call deletes
    /// nothing.
    pub fn release(&mut self) -> (commands: Vec<Command>)
        ensures
            commands@ == old(self).release_sequence(),
            final(self).is_empty(),
    {
        let mut commands: Vec<Command> = Vec::new();
        let mut i: usize = 0;
        while i < self.textures.len()
            invariant
                *self == *old(self),
                i <= self.textures@.len(),
                commands@ == texture_deletions(self.textures@).take(i as int),
            decreases self.textures@.len() - i,
        {
            commands.push(Command::DeleteTexture { texture: self.textures[i].id });
            assert(commands@ =~= texture_deletions(self.textures@).take(i + 1));
            i = i + 1;
        }
        assert(commands@ =~= texture_deletions(self.textures@));
        let ghost first = commands@;
        let mut i: usize = 0;
        while i < self.vertex_arrays.len()
            invariant
                *self == *old(self),
                i <= self.vertex_arrays@.len(),
                commands@ == first + vertex_array_deletions(self.vertex_arrays@).take(i as int),
            decreases self.vertex_arrays@.len() - i,
        {
            commands.push(Command::DeleteVertexArray { vertex_array: self.vertex_arrays[i].id });
            assert(commands@ =~= first + vertex_array_deletions(self.vertex_arrays@).take(i + 1));
            i = i + 1;
        }
        assert(commands@ =~= first + vertex_array_deletions(self.vertex_arrays@));
        let ghost second = commands@;
        let mut i: usize = 0;
        while i < self.buffers.len()
            invariant
                *self == *old(self),
                i <= self.buffers@.len(),
                commands@ == second + buffer_deletions(self.buffers@).take(i as int),
            decreases self.buffers@.len() - i,
        {
            commands.push(Command::DeleteBuffer { buffer: self.buffers[i] });
            assert(commands@ =~= second + buffer_deletions(self.buffers@).take(i + 1));
            i = i + 1;
        }
        assert(commands@ =~= second + buffer_deletions(self.buffers@));
        if self.program != 0 {
            commands.push(Command::DeleteProgram { program: self.program });
        }
        assert(commands@ =~= old(self).release_sequence());
        self.textures = Vec::new();
        self.vertex_arrays = Vec::new();
        self.buffers = Vec::new();
        self.program = 0;
        commands
    }
}

/// A registry that has been released owns nothing, so that releasing it
/// again deletes nothing: no object is deleted twice.
pub proof fn lemma_release_is_idempotent(data: GlData)
    requires
        data.is_empty(),
    ensures
        data.release_sequence() == Seq::<Command>::empty(),
{
    assert(data.release_sequence() =~= Seq::<Command>::empty());
}

/// Releasing deletes each owned object exactly once: there is one command
/// for each texture, vertex array and buffer and for the program, and the
/// command at each position deletes the object at that position.
pub proof fn lemma_release_deletes_each_object_once(data: GlData)
    ensures
        data.release_sequence().len() == data.textures@.len() + data.vertex_arrays@.len()
            + data.buffers@.len() + (if data.program != 0 {
            1int
        } else {
            0int
        }),
        forall|i: int|
            0 <= i < data.textures@.len() ==> #[trigger] data.release_sequence()[i]
                == (Command::DeleteTexture { texture: data.textures@[i].id }),
        forall|i: int|
            0 <= i < data.vertex_arrays@.len() ==> #[trigger] data.release_sequence()[data.textures@.len()
                + i] == (Command::DeleteVertexArray { vertex_array: data.vertex_arrays@[i].id }),
        forall|i: int|
            0 <= i < data.buffers@.len() ==> #[trigger] data.release_sequence()[data.textures@.len()
                + data.vertex_arrays@.len() + i] == (Command::DeleteBuffer {
                buffer: data.buffers@[i],
            }),
        data.program != 0 ==> data.release_sequence().last() == (Command::DeleteProgram {
            program: data.program,
        }),
{
}

} // verus!
