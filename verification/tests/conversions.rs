use dwebp::{awebp_to_multi_png, awebp_to_single_png, AwebpFramePosition, AwebpToPngError};

const WIDTH: u32 = 4;
const HEIGHT: u32 = 3;

fn solid(red: u8, green: u8, blue: u8) -> Vec<u8> {
    [red, green, blue, 255].repeat((WIDTH * HEIGHT) as usize)
}

fn colours(count: usize) -> Vec<Vec<u8>> {
    (0..count)
        .map(|i| solid(40 * (i as u8 + 1), 250 - 30 * i as u8, 17 * i as u8))
        .collect()
}

fn animation(frames: &[Vec<u8>]) -> Vec<u8> {
    let mut encoder = webp_animation::Encoder::new((WIDTH, HEIGHT)).unwrap();
    for (i, frame) in frames.iter().enumerate() {
        encoder.add_frame(frame, 100 * i as i32).unwrap();
    }
    encoder.finalize(100 * frames.len() as i32).unwrap().to_vec()
}

fn still_image() -> Vec<u8> {
    vec![
        0x52, 0x49, 0x46, 0x46, 0x1a, 0x00, 0x00, 0x00, 0x57, 0x45, 0x42, 0x50, 0x56, 0x50, 0x38,
        0x4c, 0x0d, 0x00, 0x00, 0x00, 0x2f, 0x00, 0x00, 0x00, 0x10, 0x07, 0x10, 0x11, 0x11, 0x88,
        0x88, 0xfe, 0x07, 0x00,
    ]
}

fn read_png(png_bytes: &[u8]) -> (u32, u32, Vec<u8>) {
    let mut reader = png::Decoder::new(png_bytes).read_info().unwrap();
    let mut pixels = vec![0; reader.output_buffer_size()];
    let info = reader.next_frame(&mut pixels).unwrap();
    assert_eq!(info.color_type, png::ColorType::Rgba);
    assert_eq!(info.bit_depth, png::BitDepth::Eight);
    pixels.truncate(info.buffer_size());
    (info.width, info.height, pixels)
}

#[test]
fn test_awebp_to_single_png_with_animated() {
    let awebp_bytes = animation(&colours(3));
    let png_bytes = awebp_to_single_png(&awebp_bytes, Some(AwebpFramePosition::Last)).unwrap();

    let png_decoder = png::Decoder::new(&png_bytes[..]);
    png_decoder.read_info().unwrap();
}

#[test]
fn test_awebp_to_multi_png_with_animated() {
    let awebp_bytes = animation(&colours(3));
    let png_bytes_list = awebp_to_multi_png(&awebp_bytes).unwrap();

    assert_eq!(png_bytes_list.len(), 3);
    for png_bytes in png_bytes_list.into_iter() {
        let png_decoder = png::Decoder::new(&png_bytes[..]);
        png_decoder.read_info().unwrap();
    }
}

#[test]
fn test_awebp_to_single_png_with_not_animated() {
    let awebp_bytes = still_image();
    let png_bytes = awebp_to_single_png(&awebp_bytes, None).unwrap();

    let png_decoder = png::Decoder::new(&png_bytes[..]);
    png_decoder.read_info().unwrap();
}

#[test]
fn test_awebp_to_multi_png_with_not_animated() {
    let awebp_bytes = still_image();
    let png_bytes_list = awebp_to_multi_png(&awebp_bytes).unwrap();

    assert_eq!(png_bytes_list.len(), 1);
    for png_bytes in png_bytes_list.into_iter() {
        let png_decoder = png::Decoder::new(&png_bytes[..]);
        png_decoder.read_info().unwrap();
    }
}

#[test]
fn single_frame_gives_the_same_png_for_every_position() {
    for awebp_bytes in [still_image(), animation(&colours(1))] {
        let first = awebp_to_single_png(&awebp_bytes, Some(AwebpFramePosition::First)).unwrap();
        let specific =
            awebp_to_single_png(&awebp_bytes, Some(AwebpFramePosition::Specific(1))).unwrap();
        let last = awebp_to_single_png(&awebp_bytes, Some(AwebpFramePosition::Last)).unwrap();
        assert_eq!(first, specific);
        assert_eq!(first, last);
    }
}

#[test]
fn no_position_means_first() {
    let awebp_bytes = animation(&colours(3));
    let chosen = awebp_to_single_png(&awebp_bytes, None).unwrap();
    let first = awebp_to_single_png(&awebp_bytes, Some(AwebpFramePosition::First)).unwrap();
    assert_eq!(chosen, first);
    assert_eq!(read_png(&chosen).2, colours(3)[0]);
}

#[test]
fn multi_gives_one_png_per_frame_in_order() {
    let frames = colours(5);
    let awebp_bytes = animation(&frames);
    let png_bytes_list = awebp_to_multi_png(&awebp_bytes).unwrap();
    assert_eq!(png_bytes_list.len(), 5);
    for (png_bytes, frame) in png_bytes_list.iter().zip(frames.iter()) {
        assert_eq!(read_png(png_bytes), (WIDTH, HEIGHT, frame.clone()));
    }
}

#[test]
fn specific_count_is_last() {
    let awebp_bytes = animation(&colours(5));
    let all = awebp_to_multi_png(&awebp_bytes).unwrap();
    let specific =
        awebp_to_single_png(&awebp_bytes, Some(AwebpFramePosition::Specific(5))).unwrap();
    let last = awebp_to_single_png(&awebp_bytes, Some(AwebpFramePosition::Last)).unwrap();
    assert_eq!(specific, last);
    assert_eq!(last, all[4]);
}

#[test]
fn specific_zero_is_specific_one() {
    let frames = colours(3);
    let awebp_bytes = animation(&frames);
    let zero = awebp_to_single_png(&awebp_bytes, Some(AwebpFramePosition::Specific(0))).unwrap();
    let one = awebp_to_single_png(&awebp_bytes, Some(AwebpFramePosition::Specific(1))).unwrap();
    assert_eq!(zero, one);
    assert_eq!(read_png(&zero).2, frames[0]);
}

#[test]
fn every_png_reads_back_with_the_size_and_pixels_of_its_frame() {
    let frames = colours(3);
    let awebp_bytes = animation(&frames);
    for (i, frame) in frames.iter().enumerate() {
        let position = AwebpFramePosition::Specific(i + 1);
        let png_bytes = awebp_to_single_png(&awebp_bytes, Some(position)).unwrap();
        assert_eq!(&png_bytes[..8], &[0x89, b'P', b'N', b'G', 0x0d, 0x0a, 0x1a, 0x0a]);
        assert_eq!(read_png(&png_bytes), (WIDTH, HEIGHT, frame.clone()));
    }
    let still = awebp_to_single_png(&still_image(), None).unwrap();
    let (width, height, pixels) = read_png(&still);
    assert_eq!((width, height, pixels.len()), (1, 1, 4));
}

#[test]
fn position_past_the_end_is_frame_not_found() {
    let awebp_bytes = animation(&colours(3));
    for n in [4, 5, 10, 1000, usize::MAX] {
        let result = awebp_to_single_png(&awebp_bytes, Some(AwebpFramePosition::Specific(n)));
        assert_eq!(result, Err(AwebpToPngError::AwebpSpecificFrameIsNone));
    }
    let result = awebp_to_single_png(&still_image(), Some(AwebpFramePosition::Specific(2)));
    assert_eq!(result, Err(AwebpToPngError::AwebpSpecificFrameIsNone));
}

#[test]
fn malformed_bytes_are_decode_failed() {
    let awebp_bytes = animation(&colours(3));
    let truncated = &awebp_bytes[..awebp_bytes.len() / 2];
    let inputs: [&[u8]; 4] = [&[0x00, 0x01], b"RIFF", b"not an animation at all", truncated];
    for input in inputs {
        for position in [
            None,
            Some(AwebpFramePosition::First),
            Some(AwebpFramePosition::Specific(2)),
            Some(AwebpFramePosition::Last),
        ] {
            let result = awebp_to_single_png(input, position);
            assert_eq!(result, Err(AwebpToPngError::DecodeAwebpFailed));
        }
        assert_eq!(awebp_to_multi_png(input), Err(AwebpToPngError::DecodeAwebpFailed));
    }
}

#[test]
fn three_frames_specific_two_and_ten() {
    let frames = colours(3);
    let awebp_bytes = animation(&frames);
    let second = awebp_to_single_png(&awebp_bytes, Some(AwebpFramePosition::Specific(2))).unwrap();
    assert_eq!(read_png(&second), (WIDTH, HEIGHT, frames[1].clone()));
    assert_eq!(second, awebp_to_multi_png(&awebp_bytes).unwrap()[1]);
    let tenth = awebp_to_single_png(&awebp_bytes, Some(AwebpFramePosition::Specific(10)));
    assert_eq!(tenth, Err(AwebpToPngError::AwebpSpecificFrameIsNone));
}

#[test]
fn empty_input_is_decode_failed() {
    for position in [None, Some(AwebpFramePosition::Specific(1)), Some(AwebpFramePosition::Last)] {
        let result = awebp_to_single_png(&[], position);
        assert_eq!(result, Err(AwebpToPngError::DecodeAwebpFailed));
    }
    assert_eq!(awebp_to_multi_png(&[]), Err(AwebpToPngError::DecodeAwebpFailed));
}

#[test]
fn conversion_is_repeatable() {
    let awebp_bytes = animation(&colours(4));
    assert_eq!(awebp_to_multi_png(&awebp_bytes), awebp_to_multi_png(&awebp_bytes));
    let position = Some(AwebpFramePosition::Specific(3));
    assert_eq!(
        awebp_to_single_png(&awebp_bytes, position),
        awebp_to_single_png(&awebp_bytes, position)
    );
}

#[test]
fn default_position_is_first() {
    assert_eq!(AwebpFramePosition::default(), AwebpFramePosition::First);
}

#[test]
fn error_messages_name_the_variant() {
    assert_eq!(AwebpToPngError::DecodeAwebpFailed.message(), "DecodeAwebpFailed");
    assert_eq!(AwebpToPngError::AwebpSpecificFrameIsNone.message(), "AwebpSpecificFrameIsNone");
    assert_eq!(AwebpToPngError::ToImageFailed.message(), "ToImageFailed");
    assert_eq!(AwebpToPngError::EncodePngFailed.message(), "EncodePngFailed");
    assert_eq!(
        format!("{:?}", AwebpToPngError::ToImageFailed),
        AwebpToPngError::ToImageFailed.message()
    );
}
