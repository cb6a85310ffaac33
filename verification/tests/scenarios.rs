use gpu_image_gen::decode::decode;
use gpu_image_gen::error::GenerationError;
use gpu_image_gen::generation::{
    generate_mandelbrot_set_image, generate_simple_image, Action, Event, Stage,
};
use gpu_image_gen::size::ImageSizeInfo;

/// A staging buffer as the device leaves it: every pixel grey `value`, alpha
/// full.
fn grey_staging(width: u32, height: u32, value: u8) -> Vec<u8> {
    let mut bytes = Vec::with_capacity((width * height * 4) as usize);
    for _ in 0..width * height {
        bytes.extend_from_slice(&[value, value, value, 255]);
    }
    bytes
}

#[test]
fn image_of_1024_by_720_decodes_with_opaque_alpha() {
    let size = ImageSizeInfo { width: 1024, height: 720 };
    let mut generation = generate_mandelbrot_set_image(size);
    let mut staging_len = 0;
    let decode_action = loop {
        match generation.pending() {
            Action::CreateStagingBuffer { byte_len, .. } => staging_len = byte_len,
            Action::Decode { width, height } => break (width, height),
            Action::Fail { error } => panic!("generation failed: {:?}", error),
            _ => {}
        }
        generation = generation.step(Event::Succeeded);
    };
    assert_eq!(decode_action, (1024, 720));
    assert_eq!(staging_len, 1024 * 720 * 4);

    let staging = grey_staging(1024, 720, 128);
    assert_eq!(staging.len(), staging_len);
    let image = decode(&staging, decode_action.0, decode_action.1).unwrap();
    assert_eq!(image.width(), 1024);
    assert_eq!(image.height(), 720);
    assert_eq!(image.as_bytes().len(), 1024 * 720 * 4);
    for y in 0..720 {
        for x in 0..1024 {
            let pixel = image.pixel(x, y).unwrap();
            assert_eq!(pixel[3], 255);
        }
    }
}

#[test]
fn kernel_that_does_not_compile_ends_the_generation_before_any_binding() {
    let size = ImageSizeInfo { width: 1024, height: 720 };
    let mut generation = generate_mandelbrot_set_image(size);
    assert!(matches!(
        generation.pending(),
        Action::CreateDeviceImage { width: 1024, height: 720, .. }
    ));
    generation = generation.step(Event::Succeeded);
    assert_eq!(generation.pending(), Action::LoadKernel);
    generation = generation.step(Event::Failed);
    assert_eq!(generation.stage(), Stage::Failed(GenerationError::KernelCompileError));
    for event in [Event::Succeeded, Event::Succeeded, Event::Failed, Event::DeviceLost] {
        generation = generation.step(event);
        assert_eq!(
            generation.pending(),
            Action::Fail { error: GenerationError::KernelCompileError }
        );
    }
}

#[test]
fn staging_buffer_of_another_size_is_never_an_image() {
    let staging = grey_staging(1024, 720, 0);
    assert!(matches!(decode(&staging, 1024, 719), Err(GenerationError::SizeMismatchError)));
    assert!(matches!(decode(&staging, 1025, 720), Err(GenerationError::SizeMismatchError)));
    assert!(matches!(decode(&staging[1..], 1024, 720), Err(GenerationError::SizeMismatchError)));
}

#[test]
fn equal_dimensions_and_equal_device_bytes_give_equal_images() {
    let size = ImageSizeInfo { width: 16, height: 8 };
    let mut first = generate_simple_image(size);
    let mut second = generate_simple_image(size);
    while !matches!(first.pending(), Action::Decode { .. }) {
        assert_eq!(first.pending(), second.pending());
        first = first.step(Event::Succeeded);
        second = second.step(Event::Succeeded);
    }
    assert_eq!(first.pending(), second.pending());
    let one = grey_staging(16, 8, 200);
    let other = grey_staging(16, 8, 200);
    let a = decode(&one, 16, 8).unwrap();
    let b = decode(&other, 16, 8).unwrap();
    assert_eq!((a.width(), a.height()), (b.width(), b.height()));
    assert_eq!(a.as_bytes(), b.as_bytes());
}
