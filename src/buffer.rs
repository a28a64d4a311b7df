use vstd::prelude::*;

use crate::error::{Error, ValidationError};

verus! {

/// Byte layout of interleaved pixel data handed to a buffer constructor.
#[derive(Debug, Clone, Copy, PartialEq, Eq, Structural)]
pub enum MatPixelType {
    BGR,
    BGRA,
    GRAY,
    RGB,
    RGBA,
}

impl MatPixelType {
    /// Bytes per pixel.
    pub open spec fn spec_stride(self) -> int {
        match self {
            MatPixelType::BGR => 3,
            MatPixelType::BGRA => 4,
            MatPixelType::GRAY => 1,
            MatPixelType::RGB => 3,
            MatPixelType::RGBA => 4,
        }
    }

    /// The engine's numeric tag for the layout.
    pub open spec fn spec_code(self) -> int {
        match self {
            MatPixelType::RGB => 1,
            MatPixelType::BGR => 2,
            MatPixelType::GRAY => 3,
            MatPixelType::RGBA => 4,
            MatPixelType::BGRA => 5,
        }
    }

    pub fn stride(&self) -> (r: i32)
        ensures
            r == self.spec_stride(),
    {
        match self {
            MatPixelType::BGR => 3,
            MatPixelType::BGRA => 4,
            MatPixelType::GRAY => 1,
            MatPixelType::RGB => 3,
            MatPixelType::RGBA => 4,
        }
    }

    pub fn to_int(&self) -> (r: i32)
        ensures
            r == self.spec_code(),
    {
        match self {
            MatPixelType::RGB => 1,
            MatPixelType::BGR => 2,
            MatPixelType::GRAY => 3,
            MatPixelType::RGBA => 4,
            MatPixelType::BGRA => 5,
        }
    }
}

/// Number of bytes that `width` by `height` pixels of `pixel_type` occupy.
pub open spec fn pixel_data_len(pixel_type: MatPixelType, width: int, height: int) -> int {
    width * height * pixel_type.spec_stride()
}

/// Checks interleaved pixel data against its declared geometry before it is
/// handed to the engine, and returns the row stride in bytes to pass along.
pub fn check_pixel_data(data_len: usize, pixel_type: MatPixelType, width: i32, height: i32) -> (r:
    Result<i64, Error>)
    ensures
        r is Ok <==> data_len == pixel_data_len(pixel_type, width as int, height as int),
        r matches Ok(row) ==> row == width * pixel_type.spec_stride(),
        r is Err ==> r == Err::<i64, Error>(
            Error::Validation(
                ValidationError::PixelDataLength {
                    expected: pixel_data_len(pixel_type, width as int, height as int) as i128,
                    actual: data_len,
                },
            ),
        ),
{
    let stride = pixel_type.stride();
    let row: i64 = width as i64 * stride as i64;
    assert(-0x2_0000_0000 <= row <= 0x2_0000_0000) by (nonlinear_arith)
        requires
            row == width * stride,
            -0x8000_0000 <= width < 0x8000_0000,
            1 <= stride <= 4,
    ;
    assert(-0x1_0000_0000_0000_0000 <= row * height <= 0x1_0000_0000_0000_0000)
        by (nonlinear_arith)
        requires
            -0x2_0000_0000 <= row <= 0x2_0000_0000,
            -0x8000_0000 <= height < 0x8000_0000,
    ;
    let expected: i128 = row as i128 * height as i128;
    assert(expected == pixel_data_len(pixel_type, width as int, height as int)) by (nonlinear_arith)
        requires
            expected == row * height,
            row == width * stride,
            stride == pixel_type.spec_stride(),
    ;
    if expected == data_len as i128 {
        Ok(row)
    } else {
        Err(Error::Validation(ValidationError::PixelDataLength { expected, actual: data_len }))
    }
}

/// Checks per-channel mean and scale values against a buffer's channel count
/// before a normalization is handed to the engine.
pub fn check_normalize(channels: i32, mean_len: usize, norm_len: usize) -> (r: Result<(), Error>)
    ensures
        r is Ok <==> (mean_len == channels && norm_len == channels),
        r is Err ==> r == Err::<(), Error>(
            Error::Validation(ValidationError::ChannelCount { channels, mean_len, norm_len }),
        ),
{
    if channels >= 0 && mean_len as u64 == channels as u64 && norm_len as u64 == channels as u64 {
        Ok(())
    } else {
        Err(Error::Validation(ValidationError::ChannelCount { channels, mean_len, norm_len }))
    }
}

} // verus!
