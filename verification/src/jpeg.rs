//! The JPEG codec: raw RGBA frames in, JPEG bytes out, and back.
//!
//! The compression itself is the work of the `image` crate. What is decided
//! here is which frames can be encoded, with which quality, and what a
//! decoded frame looks like.

use crate::error::CodecError;
use crate::models::{CodecType, EncoderConfig, FrameFormat, ScreenFrame, ScreenFrameView};
use crate::ports::{Decoder, Encoder};
use crate::text::join;
use vstd::prelude::*;

verus! {

/// The bytes, or the error text, that the `image` crate's JPEG encoder gives
/// for an RGBA image of the given size at the given quality. Only the first
/// `4 * width * height` bytes of `rgba` count.
pub uninterp spec fn jpeg_encoding(width: u32, height: u32, rgba: Seq<u8>, quality: u8) -> Result<
    Seq<u8>,
    Seq<char>,
>;

/// True if an image of this size has room in `len` bytes of RGBA pixels.
pub open spec fn rgba_fits(width: u32, height: u32, len: nat) -> bool {
    4 * (width as int) * (height as int) <= len
}

/// True if the JPEG format can hold an image of this size: neither side is
/// empty or longer than 65535 pixels.
pub open spec fn jpeg_size(width: u32, height: u32) -> bool {
    1 <= width <= 65535 && 1 <= height <= 65535
}

/// The value of what the encoding wrapper returned.
pub open spec fn bytes_result(res: Result<Vec<u8>, String>) -> Result<Seq<u8>, Seq<char>> {
    match res {
        Ok(bytes) => Ok(bytes@),
        Err(text) => Err(text@),
    }
}

/// `image::ImageBuffer::from_raw`, `DynamicImage::to_rgb8` and
/// `image::codecs::jpeg::JpegEncoder::write_image`: views `rgba` as an image
/// of the given size, drops the alpha channel and compresses the rest.
///
/// `from_raw` refuses, and nothing is returned, exactly where the pixels do
/// not fill the size. The encoder writes to memory, so it fails only where
/// it refuses the size: a side of 0 or of more than 65535 pixels. Its output
/// depends on the size, the pixels and the quality alone.
#[verifier::external_body]
fn jpeg_from_rgba(width: u32, height: u32, rgba: Vec<u8>, quality: u8) -> (res: Option<
    Result<Vec<u8>, String>,
>)
    ensures
        res is Some <==> rgba_fits(width, height, rgba@.len()),
        res matches Some(r) ==> bytes_result(r) == jpeg_encoding(width, height, rgba@, quality),
        res matches Some(r) ==> (r is Ok <==> jpeg_size(width, height)),
{
    let image = image::ImageBuffer::<image::Rgba<u8>, Vec<u8>>::from_raw(width, height, rgba)?;
    let rgb = image::DynamicImage::ImageRgba8(image).to_rgb8();
    let mut out = std::io::Cursor::new(Vec::new());
    let encoder = image::codecs::jpeg::JpegEncoder::new_with_quality(&mut out, quality);
    let done = image::ImageEncoder::write_image(
        encoder,
        rgb.as_raw(),
        rgb.width(),
        rgb.height(),
        image::ExtendedColorType::Rgb8,
    );
    match done {
        Ok(()) => Some(Ok(out.into_inner())),
        Err(e) => Some(Err(e.to_string())),
    }
}

/// `image::load_from_memory_with_format` with the JPEG format, then
/// `DynamicImage::to_rgba8`: the size of the image that `data` holds and its
/// pixels as RGBA, four bytes each, or the text of the decoder's error.
///
/// Nothing is claimed of which bytes are an image, nor of the values of the
/// pixels: the decoder chooses its routines by the processor that it runs on.
#[verifier::external_body]
fn rgba_from_jpeg(data: &[u8]) -> (res: Result<(u32, u32, Vec<u8>), String>)
    ensures
        res matches Ok((width, height, pixels)) ==> pixels@.len() == 4 * (width as int) * (
        height as int),
{
    match image::load_from_memory_with_format(data, image::ImageFormat::Jpeg) {
        Ok(decoded) => {
            let rgba = decoded.to_rgba8();
            Ok((rgba.width(), rgba.height(), rgba.into_raw()))
        },
        Err(e) => Err(e.to_string()),
    }
}

/// The quality that an encoder works with when asked for `quality`: the
/// nearest value between 1 and 100.
pub open spec fn clamped_quality(quality: u8) -> u8 {
    if quality < 1 {
        1
    } else if quality > 100 {
        100
    } else {
        quality
    }
}

/// What encoding a frame with the given quality gives: the compressed bytes,
/// or why there are none.
pub enum EncodeOutcome {
    /// The frame is not raw but of this format.
    UnsupportedFormat(FrameFormat),
    /// The frame's bytes do not fill its size.
    InvalidDimensions,
    /// The encoder refused the frame; the text says why.
    Refused(Seq<char>),
    /// The compressed image.
    Encoded(Seq<u8>),
}

/// What the compression gives for a frame: nothing where the frame's bytes
/// do not fill its size, else the compressed bytes or the encoder's refusal.
pub open spec fn compression_of(frame: ScreenFrameView, quality: u8) -> Option<
    Result<Seq<u8>, Seq<char>>,
> {
    if rgba_fits(frame.width, frame.height, frame.data.len()) {
        Some(jpeg_encoding(frame.width, frame.height, frame.data, quality))
    } else {
        None
    }
}

/// The outcome of encoding a frame, given what the compression gave for it.
/// Only raw frames are compressed.
pub open spec fn encode_outcome(
    frame: ScreenFrameView,
    compressed: Option<Result<Seq<u8>, Seq<char>>>,
) -> EncodeOutcome {
    if frame.format != FrameFormat::Raw {
        EncodeOutcome::UnsupportedFormat(frame.format)
    } else {
        match compressed {
            None => EncodeOutcome::InvalidDimensions,
            Some(Ok(bytes)) => EncodeOutcome::Encoded(bytes),
            Some(Err(text)) => EncodeOutcome::Refused(text),
        }
    }
}

/// The value of what the compression returned.
pub open spec fn compression_result(compressed: Option<Result<Vec<u8>, String>>) -> Option<
    Result<Seq<u8>, Seq<char>>,
> {
    match compressed {
        Some(r) => Some(bytes_result(r)),
        None => None,
    }
}

/// The name of a frame format.
pub open spec fn format_name(format: FrameFormat) -> Seq<char> {
    match format {
        FrameFormat::Raw => "Raw"@,
        FrameFormat::Jpeg => "Jpeg"@,
        FrameFormat::H264 => "H264"@,
        FrameFormat::VP8 => "VP8"@,
        FrameFormat::AV1 => "AV1"@,
    }
}

fn format_label(format: FrameFormat) -> (name: &'static str)
    ensures
        name@ == format_name(format),
{
    match format {
        FrameFormat::Raw => "Raw",
        FrameFormat::Jpeg => "Jpeg",
        FrameFormat::H264 => "H264",
        FrameFormat::VP8 => "VP8",
        FrameFormat::AV1 => "AV1",
    }
}

/// True if `res` is how the encoder reports `outcome`.
pub open spec fn reports(res: Result<Vec<u8>, CodecError>, outcome: EncodeOutcome) -> bool {
    match outcome {
        EncodeOutcome::UnsupportedFormat(format) => res matches Err(
            CodecError::EncodingFailed(text),
        ) && text@ == "Unsupported input format: "@ + format_name(format),
        EncodeOutcome::InvalidDimensions => res matches Err(CodecError::EncodingFailed(text))
            && text@ == "Invalid raw frame dimensions"@,
        EncodeOutcome::Refused(why) => res matches Err(CodecError::EncodingFailed(text)) && text@
            == why,
        EncodeOutcome::Encoded(bytes) => res matches Ok(data) && data@ == bytes,
    }
}

/// Encodes raw RGBA frames as JPEG.
#[derive(Debug, Clone, Copy, PartialEq, Eq, Structural)]
pub struct JpegEncoder {
    config: EncoderConfig,
}

impl JpegEncoder {
    /// The encoder's settings.
    pub closed spec fn settings(&self) -> EncoderConfig {
        self.config
    }

    /// An encoder with the given settings.
    pub fn new(config: EncoderConfig) -> (encoder: JpegEncoder)
        ensures
            encoder.settings() == config,
    {
        JpegEncoder { config }
    }

    /// An encoder with default settings and the given quality, brought into
    /// the range from 1 to 100.
    pub fn with_quality(quality: u8) -> (encoder: JpegEncoder)
        ensures
            encoder.settings() == (EncoderConfig {
                codec: CodecType::Jpeg,
                quality: clamped_quality(quality),
                target_fps: 30,
                bitrate: None,
            }),
    {
        let quality = if quality < 1 {
            1
        } else if quality > 100 {
            100
        } else {
            quality
        };
        JpegEncoder {
            config: EncoderConfig {
                codec: CodecType::Jpeg,
                quality,
                target_fps: 30,
                bitrate: None,
            },
        }
    }

    /// Reports what came of compressing a frame. `compressed` is what the
    /// compression returned, or nothing where the pixels did not fill the
    /// size.
    pub fn encoded(frame: &ScreenFrame, compressed: Option<Result<Vec<u8>, String>>) -> (res:
        Result<Vec<u8>, CodecError>)
        ensures
            reports(res, encode_outcome(frame@, compression_result(compressed))),
    {
        match frame.format {
            FrameFormat::Raw => match compressed {
                None => Err(CodecError::EncodingFailed("Invalid raw frame dimensions".to_owned())),
                Some(Ok(bytes)) => Ok(bytes),
                Some(Err(text)) => Err(CodecError::EncodingFailed(text)),
            },
            other => Err(
                CodecError::EncodingFailed(
                    join("Unsupported input format: ", format_label(other)),
                ),
            ),
        }
    }
}

impl Encoder for JpegEncoder {
    /// Encodes a raw RGBA frame at the configured quality. A frame of
    /// another format, or one whose bytes do not fill its size, is refused;
    /// so is one that the JPEG format cannot hold. Every other frame is
    /// encoded.
    fn encode(&mut self, frame: &ScreenFrame) -> (res: Result<Vec<u8>, CodecError>)
        ensures
            final(self).settings() == old(self).settings(),
            reports(
                res,
                encode_outcome(frame@, compression_of(frame@, old(self).settings().quality)),
            ),
            res is Ok <==> frame@.format == FrameFormat::Raw && rgba_fits(
                frame@.width,
                frame@.height,
                frame@.data.len(),
            ) && jpeg_size(frame@.width, frame@.height),
    {
        match frame.format {
            FrameFormat::Raw => {
                let compressed = jpeg_from_rgba(
                    frame.width,
                    frame.height,
                    frame.data.clone(),
                    self.config.quality,
                );
                JpegEncoder::encoded(frame, compressed)
            },
            _ => JpegEncoder::encoded(frame, None),
        }
    }

    fn config(&self) -> (config: EncoderConfig)
        ensures
            config == self.settings(),
    {
        self.config
    }

    /// Replaces the settings. Settings for another codec are refused and
    /// change nothing.
    fn set_config(&mut self, config: EncoderConfig) -> (res: Result<(), CodecError>)
        ensures
            match res {
                Ok(()) => config.codec == CodecType::Jpeg && final(self).settings() == config,
                Err(e) => {
                    &&& config.codec != CodecType::Jpeg
                    &&& final(self).settings() == old(self).settings()
                    &&& e matches CodecError::InvalidConfig(text)
                    &&& text@ == "JpegEncoder only supports JPEG codec"@
                },
            },
    {
        match config.codec {
            CodecType::Jpeg => {
                self.config = config;
                Ok(())
            },
            _ => Err(
                CodecError::InvalidConfig("JpegEncoder only supports JPEG codec".to_owned()),
            ),
        }
    }
}

/// Decodes JPEG bytes to raw RGBA frames.
#[derive(Debug, Clone, Copy, PartialEq, Eq, Structural)]
pub struct JpegDecoder;

impl JpegDecoder {
    /// A decoder.
    pub fn new() -> (decoder: JpegDecoder) {
        JpegDecoder
    }

    /// The frame for decoded pixels, or the error for the decoder's refusal.
    /// The frame is raw; its sequence number and time are 0, for the caller
    /// to set.
    pub fn decoded(pixels: Result<(u32, u32, Vec<u8>), String>) -> (res: Result<
        ScreenFrame,
        CodecError,
    >)
        ensures
            match pixels {
                Ok((width, height, data)) => res matches Ok(frame) && frame@ == (ScreenFrameView {
                    sequence: 0,
                    timestamp: 0,
                    data: data@,
                    width,
                    height,
                    format: FrameFormat::Raw,
                }),
                Err(why) => res matches Err(CodecError::DecodingFailed(text)) && text@ == why@,
            },
    {
        match pixels {
            Ok((width, height, data)) => Ok(
                ScreenFrame {
                    sequence: 0,
                    timestamp: 0,
                    data,
                    width,
                    height,
                    format: FrameFormat::Raw,
                },
            ),
            Err(why) => Err(CodecError::DecodingFailed(why)),
        }
    }
}

impl Default for JpegDecoder {
    fn default() -> (decoder: JpegDecoder) {
        JpegDecoder::new()
    }
}

impl Decoder for JpegDecoder {
    /// Decodes JPEG bytes. The frame is raw, has the image's size and its
    /// pixels as RGBA, four bytes each, and sequence number and time 0; bytes
    /// that hold no JPEG image give a decoding error.
    fn decode(&mut self, data: &[u8]) -> (res: Result<ScreenFrame, CodecError>)
        ensures
            match res {
                Ok(frame) => {
                    &&& frame@.sequence == 0
                    &&& frame@.timestamp == 0
                    &&& frame@.format == FrameFormat::Raw
                    &&& frame@.data.len() == 4 * (frame@.width as int) * (frame@.height as int)
                },
                Err(e) => e is DecodingFailed,
            },
    {
        JpegDecoder::decoded(rgba_from_jpeg(data))
    }

    fn codec_type(&self) -> (codec: CodecType)
        ensures
            codec == CodecType::Jpeg,
    {
        CodecType::Jpeg
    }
}

} // verus!
