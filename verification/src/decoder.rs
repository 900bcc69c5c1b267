//! Result types of a decode, and validation of an extracted pixel buffer.

use vstd::prelude::*;

verus! {

/// Opaque marker type for the engine's native decode session. The shell
/// declares the engine's entry points over pointers to this type; the
/// library itself never inspects a value of it.
pub struct LibRawData {
    _private: [u8; 0],
}

/// Why an extracted pixel buffer was rejected.
#[derive(Clone, Copy, Debug, PartialEq, Eq, Structural)]
pub enum ValidationReason {
    /// The engine handed back a buffer whose data pointer was null.
    NullData,
    /// `width * height * 3` does not fit in a `usize`.
    DimensionsTooLarge,
    /// The buffer holds `reported` bytes where exactly `expected` were owed.
    SizeMismatch { reported: usize, expected: usize },
}

/// A decode failure: the pipeline stage that reported it, and the engine's
/// status code where the stage has one.
#[derive(Clone, Copy, Debug, PartialEq, Eq, Structural)]
pub enum DecodeError {
    /// The engine could not allocate a session.
    InitializationFailure,
    /// Opening the file into the session failed.
    OpenFailure { code: i32 },
    /// Unpacking the raw sensor data failed.
    UnpackFailure { code: i32 },
    /// The develop/demosaic pipeline failed.
    ProcessFailure { code: i32 },
    /// Thumbnail extraction failed with other than the no-thumbnail code.
    ThumbnailExtractFailure { code: i32 },
    /// Full-image extraction failed.
    FullExtractFailure { code: i32 },
    /// The engine returned a buffer that breaks the size contract.
    ValidationFailure { reason: ValidationReason },
}

/// A decoded bitmap: 8 bits per channel, 3 channels per pixel, row-major,
/// no padding, so `data` holds exactly `width * height * 3` bytes.
#[derive(Debug)]
pub struct DecodedImage {
    pub data: Vec<u8>,
    pub width: u32,
    pub height: u32,
}

/// Mathematical model of a `DecodedImage`.
pub struct ImageModel {
    pub data: Seq<u8>,
    pub width: u32,
    pub height: u32,
}

impl View for DecodedImage {
    type V = ImageModel;

    open spec fn view(&self) -> ImageModel {
        ImageModel { data: self.data@, width: self.width, height: self.height }
    }
}

/// Exact byte count owed by an 8-bit RGB bitmap with no padding.
pub open spec fn rgb_byte_len(width: u32, height: u32) -> int {
    width * height * 3
}

impl ImageModel {
    /// The invariant of a decoded image: the buffer length matches the
    /// dimensions exactly.
    pub open spec fn well_formed(self) -> bool {
        self.data.len() == rgb_byte_len(self.width, self.height)
    }
}

/// View of an optional byte buffer: the byte sequence it holds, if any.
pub open spec fn payload_view(p: Option<Vec<u8>>) -> Option<Seq<u8>> {
    match p {
        Some(v) => Some(v@),
        None => None,
    }
}

/// What validation decides, given the reported geometry and a byte-for-byte
/// copy of the engine's buffer (`None` when the data pointer was null):
/// a null buffer, an unrepresentable size, or a length mismatch are each a
/// `ValidationFailure`; otherwise the bytes are taken over unchanged.
pub open spec fn validate_model(width: u32, height: u32, payload: Option<Seq<u8>>) -> Result<
    ImageModel,
    DecodeError,
> {
    match payload {
        None => Err(DecodeError::ValidationFailure { reason: ValidationReason::NullData }),
        Some(data) => {
            if rgb_byte_len(width, height) > usize::MAX {
                Err(DecodeError::ValidationFailure { reason: ValidationReason::DimensionsTooLarge })
            } else if data.len() != rgb_byte_len(width, height) {
                Err(
                    DecodeError::ValidationFailure {
                        reason: ValidationReason::SizeMismatch {
                            reported: data.len() as usize,
                            expected: rgb_byte_len(width, height) as usize,
                        },
                    },
                )
            } else {
                Ok(ImageModel { data, width, height })
            }
        },
    }
}

/// Model of a decode outcome, with the image replaced by its view.
pub open spec fn outcome_view(r: Result<DecodedImage, DecodeError>) -> Result<
    ImageModel,
    DecodeError,
> {
    match r {
        Ok(img) => Ok(img@),
        Err(e) => Err(e),
    }
}

/// Hold an extracted buffer to the 8-bit RGB size contract and repackage it
/// as an adapter-owned image. `payload` is the copy the shell made of the
/// engine-owned buffer, or `None` when the engine's data pointer was null.
pub fn extract_image_data(width: u32, height: u32, payload: Option<Vec<u8>>) -> (r: Result<
    DecodedImage,
    DecodeError,
>)
    ensures
        outcome_view(r) == validate_model(width, height, payload_view(payload)),
{
    match payload {
        None => Err(DecodeError::ValidationFailure { reason: ValidationReason::NullData }),
        Some(data) => {
            proof {
                assert((width as u128) * (height as u128) * 3 <= u128::MAX) by (nonlinear_arith);
            }
            let expected_wide: u128 = (width as u128) * (height as u128) * 3;
            if expected_wide > usize::MAX as u128 {
                Err(DecodeError::ValidationFailure { reason: ValidationReason::DimensionsTooLarge })
            } else {
                let expected: usize = expected_wide as usize;
                if data.len() != expected {
                    Err(
                        DecodeError::ValidationFailure {
                            reason: ValidationReason::SizeMismatch {
                                reported: data.len(),
                                expected,
                            },
                        },
                    )
                } else {
                    Ok(DecodedImage { data, width, height })
                }
            }
        },
    }
}

/// Law: validation accepts exactly the buffers that meet the size contract,
/// and returns their bytes unchanged; everything else is a
/// `ValidationFailure`, never a truncated or reinterpreted image.
pub proof fn lemma_validate_model_exact(width: u32, height: u32, payload: Option<Seq<u8>>)
    ensures
        validate_model(width, height, payload) is Ok <==> (payload matches Some(data)
            && rgb_byte_len(width, height) <= usize::MAX && data.len() == rgb_byte_len(
            width,
            height,
        )),
        validate_model(width, height, payload) matches Ok(img) ==> img.well_formed()
            && payload == Some(img.data) && img.width == width && img.height == height,
        validate_model(width, height, payload) matches Err(e) ==> (e matches
            DecodeError::ValidationFailure { .. }),
{
}

} // verus!
