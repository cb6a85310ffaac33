use gpu_image_gen::command::{Command, CommandSequence, ImageKind, IMAGE_BINDING, IMAGE_SET};
use gpu_image_gen::error::GenerationError;
use gpu_image_gen::size::ImageSizeInfo;

#[test]
fn fractal_sequence_binds_dispatches_then_copies() {
    let size = ImageSizeInfo { width: 1024, height: 720 };
    let sequence = CommandSequence::record(ImageKind::MandelbrotSet, size).unwrap();
    assert_eq!(
        sequence.as_slice(),
        &[
            Command::BindComputePipeline,
            Command::BindDescriptorSets { first_set: 0 },
            Command::Dispatch { x: 128, y: 90, z: 1 },
            Command::CopyImageToBuffer,
        ]
    );
    assert_eq!(sequence.len(), 4);
}

#[test]
fn fractal_sequence_rounds_the_grid_up() {
    let size = ImageSizeInfo { width: 1023, height: 721 };
    let sequence = CommandSequence::record(ImageKind::MandelbrotSet, size).unwrap();
    assert_eq!(sequence.get(2), Some(Command::Dispatch { x: 128, y: 91, z: 1 }));
}

#[test]
fn simple_sequence_clears_to_blue_then_copies() {
    let size = ImageSizeInfo { width: 1024, height: 720 };
    let sequence = CommandSequence::record(ImageKind::Simple, size).unwrap();
    assert_eq!(
        sequence.as_slice(),
        &[
            Command::ClearColorImage { red: 0, green: 0, blue: 255, alpha: 255 },
            Command::CopyImageToBuffer,
        ]
    );
}

#[test]
fn empty_dispatch_grid_is_a_recording_error() {
    for size in [
        ImageSizeInfo { width: 0, height: 720 },
        ImageSizeInfo { width: 1024, height: 0 },
        ImageSizeInfo { width: 0, height: 0 },
    ] {
        let refused = CommandSequence::record(ImageKind::MandelbrotSet, size);
        assert!(matches!(refused, Err(GenerationError::RecordingError)));
    }
}

#[test]
fn simple_sequence_has_no_dispatch_to_refuse() {
    let size = ImageSizeInfo { width: 0, height: 0 };
    let sequence = CommandSequence::record(ImageKind::Simple, size).unwrap();
    assert_eq!(sequence.len(), 2);
}

#[test]
fn copy_is_last_and_follows_every_write() {
    for kind in [ImageKind::MandelbrotSet, ImageKind::Simple] {
        let size = ImageSizeInfo { width: 64, height: 40 };
        let sequence = CommandSequence::record(kind, size).unwrap();
        let commands = sequence.as_slice();
        let last = commands.len() - 1;
        assert_eq!(commands[last], Command::CopyImageToBuffer);
        for command in &commands[..last] {
            assert_ne!(*command, Command::CopyImageToBuffer);
        }
        let writes = commands
            .iter()
            .filter(|c| matches!(c, Command::Dispatch { .. } | Command::ClearColorImage { .. }))
            .count();
        assert_eq!(writes, 1);
    }
}

#[test]
fn get_past_the_end_is_none() {
    let size = ImageSizeInfo { width: 8, height: 8 };
    let sequence = CommandSequence::record(ImageKind::Simple, size).unwrap();
    assert_eq!(sequence.get(1), Some(Command::CopyImageToBuffer));
    assert_eq!(sequence.get(2), None);
}

#[test]
fn image_is_bound_at_slot_zero_of_set_zero() {
    assert_eq!(IMAGE_SET, 0);
    assert_eq!(IMAGE_BINDING, 0);
}
