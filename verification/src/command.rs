//! The commands of one image build, in the order in which they are recorded.

use vstd::prelude::*;
use crate::error::GenerationError;
use crate::size::{lemma_tiles_cover, tiles_to_cover, ImageSizeInfo, TILE_SIZE};

verus! {

/// Which image is built.
#[derive(Clone, Copy, Debug, PartialEq, Eq, Structural)]
pub enum ImageKind {
    /// Every pixel is written by one invocation of the escape-time kernel.
    MandelbrotSet,
    /// The whole image is cleared to one colour.
    Simple,
}

/// One recorded operation.
#[derive(Clone, Copy, Debug, PartialEq, Eq, Structural)]
pub enum Command {
    /// Make the compute pipeline current.
    BindComputePipeline,
    /// Bind the descriptor set that holds the image, starting at set
    /// `first_set`.
    BindDescriptorSets { first_set: u32 },
    /// Run the kernel over `x` by `y` by `z` workgroups.
    Dispatch { x: u32, y: u32, z: u32 },
    /// Fill the image with one colour, each channel from 0 (none) to 255
    /// (full).
    ClearColorImage { red: u8, green: u8, blue: u8, alpha: u8 },
    /// Copy the device image into the staging buffer.
    CopyImageToBuffer,
}

/// The descriptor set of the kernel's only binding.
pub const IMAGE_SET: u32 = 0;

/// The slot of the image within that set.
pub const IMAGE_BINDING: u32 = 0;

/// The commands that build an image of the given kind and size: the commands
/// that write the device image, then the copy into the staging buffer. A
/// dispatch over no workgroups cannot be recorded.
pub open spec fn spec_record(kind: ImageKind, size: ImageSizeInfo) -> Result<
    Seq<Command>,
    GenerationError,
> {
    match kind {
        ImageKind::MandelbrotSet => if !size.spec_is_positive() {
            Err(GenerationError::RecordingError)
        } else {
            Ok(
                seq![
                    Command::BindComputePipeline,
                    Command::BindDescriptorSets { first_set: IMAGE_SET },
                    Command::Dispatch {
                        x: tiles_to_cover(size.width),
                        y: tiles_to_cover(size.height),
                        z: 1,
                    },
                    Command::CopyImageToBuffer,
                ],
            )
        },
        ImageKind::Simple => Ok(
            seq![
                Command::ClearColorImage { red: 0, green: 0, blue: 255, alpha: 255 },
                Command::CopyImageToBuffer,
            ],
        ),
    }
}

/// Whether `command` changes the device image.
pub open spec fn writes_image(command: Command) -> bool {
    command is Dispatch || command is ClearColorImage
}

/// A recorded, immutable list of commands, ready to be submitted once.
#[derive(Debug)]
pub struct CommandSequence {
    commands: Vec<Command>,
}

impl View for CommandSequence {
    type V = Seq<Command>;

    closed spec fn view(&self) -> Seq<Command> {
        self.commands@
    }
}

/// The commands of a recording that succeeded.
pub open spec fn recorded(r: Result<CommandSequence, GenerationError>) -> Result<
    Seq<Command>,
    GenerationError,
> {
    match r {
        Ok(sequence) => Ok(sequence@),
        Err(e) => Err(e),
    }
}

impl CommandSequence {
    /// Records the commands for an image of the given kind and size. Fails
    /// with `RecordingError` when the kernel would be dispatched over an
    /// empty grid.
    pub fn record(kind: ImageKind, size: ImageSizeInfo) -> (r: Result<
        CommandSequence,
        GenerationError,
    >)
        ensures
            recorded(r) == spec_record(kind, size),
            r is Err <==> kind == ImageKind::MandelbrotSet && !size.spec_is_positive(),
    {
        let mut commands: Vec<Command> = Vec::new();
        match kind {
            ImageKind::MandelbrotSet => {
                if !size.is_positive() {
                    return Err(GenerationError::RecordingError);
                }
                let grid = size.dispatch_grid();
                commands.push(Command::BindComputePipeline);
                commands.push(Command::BindDescriptorSets { first_set: IMAGE_SET });
                commands.push(Command::Dispatch { x: grid[0], y: grid[1], z: grid[2] });
            },
            ImageKind::Simple => {
                commands.push(
                    Command::ClearColorImage { red: 0, green: 0, blue: 255, alpha: 255 },
                );
            },
        }
        commands.push(Command::CopyImageToBuffer);
        let sequence = CommandSequence { commands };
        assert(sequence@ =~= spec_record(kind, size)->Ok_0);
        Ok(sequence)
    }

    /// Number of recorded commands.
    pub fn len(&self) -> (r: usize)
        ensures
            r == self@.len(),
    {
        self.commands.len()
    }

    /// The command at position `index`, or `None` past the end.
    pub fn get(&self, index: usize) -> (r: Option<Command>)
        ensures
            r == if index < self@.len() {
                Some(self@[index as int])
            } else {
                None
            },
    {
        if index < self.commands.len() {
            Some(self.commands[index])
        } else {
            None
        }
    }

    /// The commands in recording order.
    pub fn as_slice(&self) -> (r: &[Command])
        ensures
            r@ == self@,
    {
        self.commands.as_slice()
    }
}

/// In every recorded sequence the copy into the staging buffer is the last
/// command and the only copy, at least one command writes the image, and
/// every command that writes the image stands before the copy.
pub proof fn lemma_copy_follows_writes(kind: ImageKind, size: ImageSizeInfo)
    requires
        spec_record(kind, size) is Ok,
    ensures
        ({
            let commands = spec_record(kind, size)->Ok_0;
            &&& commands.len() >= 2
            &&& commands.last() is CopyImageToBuffer
            &&& forall|i: int|
                0 <= i < commands.len() - 1 ==> !(#[trigger] commands[i] is CopyImageToBuffer)
            &&& exists|i: int| 0 <= i < commands.len() - 1 && writes_image(#[trigger] commands[i])
            &&& forall|i: int|
                0 <= i < commands.len() && writes_image(#[trigger] commands[i]) ==> i
                    < commands.len() - 1
        }),
{
    let commands = spec_record(kind, size)->Ok_0;
    match kind {
        ImageKind::MandelbrotSet => {
            assert(writes_image(commands[2]));
        },
        ImageKind::Simple => {
            assert(writes_image(commands[0]));
        },
    }
}

/// The kernel is dispatched over a grid that covers every pixel, with its
/// pipeline and its image bound before.
pub proof fn lemma_dispatch_covers_image(size: ImageSizeInfo)
    requires
        spec_record(ImageKind::MandelbrotSet, size) is Ok,
    ensures
        ({
            let commands = spec_record(ImageKind::MandelbrotSet, size)->Ok_0;
            &&& commands[0] is BindComputePipeline
            &&& commands[1] is BindDescriptorSets
            &&& commands[2] matches Command::Dispatch { x, y, z }
            &&& x >= 1 && y >= 1 && z == 1
            &&& x * TILE_SIZE >= size.width
            &&& y * TILE_SIZE >= size.height
        }),
{
    lemma_tiles_cover(size.width);
    lemma_tiles_cover(size.height);
}

} // verus!
