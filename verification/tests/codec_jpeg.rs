use remote_desktop::error::CodecError;
use remote_desktop::jpeg::{JpegDecoder, JpegEncoder};
use remote_desktop::models::{CodecType, EncoderConfig, FrameFormat, ScreenFrame};
use remote_desktop::ports::{Decoder, Encoder};

fn raw_frame(width: u32, height: u32, data: Vec<u8>) -> ScreenFrame {
    ScreenFrame { sequence: 0, timestamp: 0, data, width, height, format: FrameFormat::Raw }
}

#[test]
fn test_jpeg_encode_decode() {
    // Create a test frame (simple gradient)
    let width = 640;
    let height = 480;
    let mut data = Vec::with_capacity((width * height * 4) as usize);

    for y in 0..height {
        for x in 0..width {
            data.push((x % 256) as u8); // R
            data.push((y % 256) as u8); // G
            data.push(128); // B
            data.push(255); // A
        }
    }

    let frame = ScreenFrame {
        sequence: 0,
        timestamp: 0,
        data,
        width,
        height,
        format: FrameFormat::Raw,
    };

    // Encode
    let mut encoder = JpegEncoder::with_quality(80);
    let encoded = encoder.encode(&frame).unwrap();
    assert!(!encoded.is_empty());

    // Decode
    let mut decoder = JpegDecoder::new();
    let decoded = decoder.decode(&encoded).unwrap();
    assert_eq!(decoded.width, width);
    assert_eq!(decoded.height, height);
}

#[test]
fn black_frame_keeps_its_size_through_the_codec() {
    let frame = raw_frame(640, 480, vec![0u8; 640 * 480 * 4]);
    let mut encoder = JpegEncoder::with_quality(80);
    let encoded = encoder.encode(&frame).unwrap();
    assert_ne!(encoded, frame.data);
    assert_eq!(&encoded[..2], &[0xff, 0xd8]);
    let decoded = JpegDecoder::new().decode(&encoded).unwrap();
    assert_eq!(decoded.width, 640);
    assert_eq!(decoded.height, 480);
    assert_eq!(decoded.format, FrameFormat::Raw);
    assert_eq!(decoded.sequence, 0);
    assert_eq!(decoded.timestamp, 0);
    assert_eq!(decoded.data.len(), 640 * 480 * 4);
    assert!(decoded.data.chunks(4).all(|p| p[0] < 8 && p[1] < 8 && p[2] < 8 && p[3] == 255));
}

#[test]
fn encoding_depends_on_the_quality() {
    let mut data = Vec::new();
    for i in 0..(32 * 32) {
        data.extend_from_slice(&[(i * 7 % 256) as u8, (i * 13 % 256) as u8, (i % 256) as u8, 255]);
    }
    let frame = raw_frame(32, 32, data);
    let low = JpegEncoder::with_quality(5).encode(&frame).unwrap();
    let high = JpegEncoder::with_quality(95).encode(&frame).unwrap();
    assert!(low.len() < high.len());
    assert_eq!(JpegEncoder::with_quality(95).encode(&frame).unwrap(), high);
}

#[test]
fn bytes_beyond_the_size_do_not_count() {
    let exact = raw_frame(4, 4, vec![100u8; 64]);
    let mut longer = exact.clone();
    longer.data.extend_from_slice(&[1, 2, 3, 4, 5]);
    let a = JpegEncoder::with_quality(80).encode(&exact).unwrap();
    let b = JpegEncoder::with_quality(80).encode(&longer).unwrap();
    assert_eq!(a, b);
}

#[test]
fn quality_is_brought_into_range() {
    assert_eq!(JpegEncoder::with_quality(0).config().quality, 1);
    assert_eq!(JpegEncoder::with_quality(1).config().quality, 1);
    assert_eq!(JpegEncoder::with_quality(80).config().quality, 80);
    assert_eq!(JpegEncoder::with_quality(100).config().quality, 100);
    assert_eq!(JpegEncoder::with_quality(101).config().quality, 100);
    assert_eq!(JpegEncoder::with_quality(255).config().quality, 100);
    let config = JpegEncoder::with_quality(7).config();
    assert_eq!(config.codec, CodecType::Jpeg);
    assert_eq!(config.target_fps, 30);
    assert_eq!(config.bitrate, None);
}

#[test]
fn new_keeps_the_config() {
    let config =
        EncoderConfig { codec: CodecType::Jpeg, quality: 33, target_fps: 12, bitrate: Some(9) };
    assert_eq!(JpegEncoder::new(config).config(), config);
    assert_eq!(
        EncoderConfig::default(),
        EncoderConfig { codec: CodecType::Jpeg, quality: 80, target_fps: 30, bitrate: None }
    );
}

#[test]
fn only_jpeg_settings_are_accepted() {
    let mut encoder = JpegEncoder::with_quality(50);
    let before = encoder.config();
    for codec in [CodecType::H264, CodecType::VP8, CodecType::AV1] {
        let config = EncoderConfig { codec, quality: 10, target_fps: 10, bitrate: None };
        assert_eq!(
            encoder.set_config(config),
            Err(CodecError::InvalidConfig("JpegEncoder only supports JPEG codec".to_string()))
        );
        assert_eq!(encoder.config(), before);
    }
    let config =
        EncoderConfig { codec: CodecType::Jpeg, quality: 10, target_fps: 10, bitrate: None };
    assert_eq!(encoder.set_config(config), Ok(()));
    assert_eq!(encoder.config(), config);
}

#[test]
fn frames_that_are_not_raw_are_refused() {
    let mut encoder = JpegEncoder::with_quality(80);
    for (format, name) in [
        (FrameFormat::Jpeg, "Jpeg"),
        (FrameFormat::H264, "H264"),
        (FrameFormat::VP8, "VP8"),
        (FrameFormat::AV1, "AV1"),
    ] {
        let mut frame = raw_frame(1, 1, vec![0; 4]);
        frame.format = format;
        assert_eq!(
            encoder.encode(&frame),
            Err(CodecError::EncodingFailed(format!("Unsupported input format: {}", name)))
        );
    }
}

#[test]
fn frames_whose_bytes_do_not_fill_their_size_are_refused() {
    let mut encoder = JpegEncoder::with_quality(80);
    let short = raw_frame(2, 2, vec![0; 15]);
    assert_eq!(
        encoder.encode(&short),
        Err(CodecError::EncodingFailed("Invalid raw frame dimensions".to_string()))
    );
    let huge = raw_frame(u32::MAX, u32::MAX, vec![0; 16]);
    assert_eq!(
        encoder.encode(&huge),
        Err(CodecError::EncodingFailed("Invalid raw frame dimensions".to_string()))
    );
}

#[test]
fn sizes_that_jpeg_cannot_hold_are_refused() {
    let mut encoder = JpegEncoder::with_quality(80);
    for (w, h) in [(0u32, 0u32), (0, 5), (5, 0)] {
        match encoder.encode(&raw_frame(w, h, vec![0; 64])) {
            Err(CodecError::EncodingFailed(text)) => {
                assert_ne!(text, "Invalid raw frame dimensions");
                assert!(!text.is_empty());
            }
            other => panic!("expected a refusal, got {:?}", other),
        }
    }
    let wide = raw_frame(65536, 1, vec![0; 65536 * 4]);
    assert!(matches!(encoder.encode(&wide), Err(CodecError::EncodingFailed(_))));
    let widest = raw_frame(65535, 1, vec![0; 65535 * 4]);
    assert!(encoder.encode(&widest).is_ok());
}

#[test]
fn bytes_that_are_no_jpeg_do_not_decode() {
    let mut decoder = JpegDecoder::default();
    assert_eq!(decoder.codec_type(), CodecType::Jpeg);
    match decoder.decode(&[1, 2, 3, 4]) {
        Err(CodecError::DecodingFailed(text)) => assert!(!text.is_empty()),
        other => panic!("expected a decoding error, got {:?}", other),
    }
    assert!(matches!(decoder.decode(&[]), Err(CodecError::DecodingFailed(_))));
}

#[test]
fn outcomes_are_reported() {
    let frame = raw_frame(1, 1, vec![0; 4]);
    assert_eq!(JpegEncoder::encoded(&frame, Some(Ok(vec![1, 2]))), Ok(vec![1, 2]));
    assert_eq!(
        JpegEncoder::encoded(&frame, Some(Err("no".to_string()))),
        Err(CodecError::EncodingFailed("no".to_string()))
    );
    assert_eq!(
        JpegEncoder::encoded(&frame, None),
        Err(CodecError::EncodingFailed("Invalid raw frame dimensions".to_string()))
    );
    assert_eq!(
        JpegDecoder::decoded(Ok((2, 1, vec![1, 2, 3, 4, 5, 6, 7, 8]))),
        Ok(raw_frame(2, 1, vec![1, 2, 3, 4, 5, 6, 7, 8]))
    );
    assert_eq!(
        JpegDecoder::decoded(Err("bad".to_string())),
        Err(CodecError::DecodingFailed("bad".to_string()))
    );
}
