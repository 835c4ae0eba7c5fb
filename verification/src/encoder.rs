//! The command stream.
//!
//! Drawing records commands; nothing is executed here. The order of the
//! record is the order of execution, and it is the only ordering there is: a
//! uniform buffer is shared by every draw that follows an update of it, so an
//! update that a draw depends on has to stand before that draw.

use vstd::prelude::*;
use crate::block::TransformBlock;
use crate::draw::bg;
use crate::draw::pl;
use crate::draw::uber::ParamsBlock;
use crate::handle::{Buffer, PipelineState};
use crate::mesh::Slice;

verus! {

/// One recorded command.
#[derive(Clone, Copy, PartialEq, Eq, Debug)]
pub enum Command {
    /// Write a transform block to its buffer.
    UpdateTransform { buffer: Buffer, block: TransformBlock },
    /// Write a params block to its buffer.
    UpdateParams { buffer: Buffer, params: ParamsBlock },
    /// Draw a slice of a mesh.
    Draw { slice: Slice, pso: PipelineState, mesh: pl::Data },
    /// Draw a slice of the sky's box.
    DrawBackground { slice: Slice, pso: PipelineState, sky: bg::Data },
}

impl Command {
    /// Whether the command draws.
    pub open spec fn is_draw(self) -> bool {
        self is Draw || self is DrawBackground
    }
}

/// The number of draws among some commands.
pub open spec fn draws(commands: Seq<Command>) -> nat
    decreases commands.len(),
{
    if commands.len() == 0 {
        0
    } else {
        draws(commands.drop_last()) + if commands.last().is_draw() {
            1nat
        } else {
            0nat
        }
    }
}

/// The number of writes of the params block among some commands.
pub open spec fn params_writes(commands: Seq<Command>) -> nat
    decreases commands.len(),
{
    if commands.len() == 0 {
        0
    } else {
        params_writes(commands.drop_last()) + if commands.last() is UpdateParams {
            1nat
        } else {
            0nat
        }
    }
}

/// A command behind others adds itself to their counts.
pub proof fn lemma_count_push(commands: Seq<Command>, command: Command)
    ensures
        draws(commands.push(command)) == draws(commands) + if command.is_draw() {
            1nat
        } else {
            0nat
        },
        params_writes(commands.push(command)) == params_writes(commands)
            + if command is UpdateParams {
            1nat
        } else {
            0nat
        },
{
    assert(commands.push(command).drop_last() =~= commands);
}

/// What a buffer of the params block holds once some commands have run: what
/// the last write to it put there, or nothing where it was never written.
pub open spec fn params_on_device(commands: Seq<Command>, buffer: Buffer) -> Option<ParamsBlock>
    decreases commands.len(),
{
    if commands.len() == 0 {
        None
    } else {
        match commands.last() {
            Command::UpdateParams { buffer: written, params } if written == buffer => Some(params),
            _ => params_on_device(commands.drop_last(), buffer),
        }
    }
}

/// What a buffer of the transform block holds once some commands have run:
/// what the last write to it put there, or nothing where it was never
/// written.
pub open spec fn transform_on_device(commands: Seq<Command>, buffer: Buffer) -> Option<
    TransformBlock,
>
    decreases commands.len(),
{
    if commands.len() == 0 {
        None
    } else {
        match commands.last() {
            Command::UpdateTransform { buffer: written, block } if written == buffer => Some(
                block,
            ),
            _ => transform_on_device(commands.drop_last(), buffer),
        }
    }
}

/// A command behind others changes what a buffer holds exactly where it is a
/// write to that buffer.
pub proof fn lemma_device_push(commands: Seq<Command>, command: Command, buffer: Buffer)
    ensures
        params_on_device(commands.push(command), buffer) == (match command {
            Command::UpdateParams { buffer: written, params } if written == buffer => Some(params),
            _ => params_on_device(commands, buffer),
        }),
        transform_on_device(commands.push(command), buffer) == (match command {
            Command::UpdateTransform { buffer: written, block } if written == buffer => Some(
                block,
            ),
            _ => transform_on_device(commands, buffer),
        }),
{
    assert(commands.push(command).drop_last() =~= commands);
}

/// The commands recorded since the stream was last taken.
pub struct Encoder {
    commands: Vec<Command>,
}

impl View for Encoder {
    type V = Seq<Command>;

    /// The commands, oldest first.
    closed spec fn view(&self) -> Seq<Command> {
        self.commands@
    }
}

impl Encoder {
    /// An empty stream.
    pub fn new() -> (encoder: Encoder)
        ensures
            encoder@ == Seq::<Command>::empty(),
    {
        Encoder { commands: Vec::new() }
    }

    /// Records a command behind all that are there.
    pub fn record(&mut self, command: Command)
        ensures
            final(self)@ == old(self)@.push(command),
    {
        self.commands.push(command);
    }

    /// Records the write of a transform block to its buffer.
    pub fn update_transform(&mut self, buffer: &Buffer, block: &TransformBlock)
        ensures
            final(self)@ == old(self)@.push(
                Command::UpdateTransform { buffer: *buffer, block: *block },
            ),
    {
        self.record(Command::UpdateTransform { buffer: *buffer, block: *block });
    }

    /// Records the write of a params block to its buffer.
    pub fn update_params(&mut self, buffer: &Buffer, params: &ParamsBlock)
        ensures
            final(self)@ == old(self)@.push(
                Command::UpdateParams { buffer: *buffer, params: *params },
            ),
    {
        self.record(Command::UpdateParams { buffer: *buffer, params: *params });
    }

    /// Records the draw of a slice of a mesh.
    pub fn draw(&mut self, slice: &Slice, pso: &PipelineState, mesh: &pl::Data)
        ensures
            final(self)@ == old(self)@.push(
                Command::Draw { slice: *slice, pso: *pso, mesh: *mesh },
            ),
    {
        self.record(Command::Draw { slice: *slice, pso: *pso, mesh: *mesh });
    }

    /// Records the draw of a slice of the sky's box.
    pub fn draw_background(&mut self, slice: &Slice, pso: &PipelineState, sky: &bg::Data)
        ensures
            final(self)@ == old(self)@.push(
                Command::DrawBackground { slice: *slice, pso: *pso, sky: *sky },
            ),
    {
        self.record(Command::DrawBackground { slice: *slice, pso: *pso, sky: *sky });
    }

    /// The number of commands in the stream.
    pub fn len(&self) -> (n: usize)
        ensures
            n == self@.len(),
    {
        self.commands.len()
    }

    /// The command at a position, oldest first.
    pub fn get(&self, i: usize) -> (command: Option<Command>)
        ensures
            command == (if i < self@.len() { Some(self@[i as int]) } else { None }),
    {
        if i < self.commands.len() {
            Some(self.commands[i])
        } else {
            None
        }
    }

    /// Hands the stream over for submission and starts an empty one.
    pub fn take(&mut self) -> (commands: Vec<Command>)
        ensures
            commands@ == old(self)@,
            final(self)@ == Seq::<Command>::empty(),
    {
        let mut taken: Vec<Command> = Vec::new();
        std::mem::swap(&mut taken, &mut self.commands);
        taken
    }
}

} // verus!
