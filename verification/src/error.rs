use vstd::prelude::*;

verus! {

/// The container formats that content sniffing tells apart.
#[derive(Clone, Copy, Debug, PartialEq, Eq, Structural)]
pub enum SourceFormat {
    Png,
    Jpeg,
    Gif,
    WebP,
    Pnm,
    Tiff,
    Tga,
    Bmp,
    Ico,
    Farbfeld,
    Avif,
    Dds,
    Hdr,
    OpenExr,
    Qoi,
    /// A vector drawing, which is rasterized.
    Svg,
    /// A container that was recognised and that has no name here.
    Other,
}

/// The formats that an image can be encoded to.
#[derive(Clone, Copy, Debug, PartialEq, Eq, Structural)]
pub enum TargetFormat {
    Png,
    Jpeg,
    Webp,
    WebpLossless,
    Avif,
    Bmp,
    Ico,
    Tiff,
    Pnm,
    Tga,
    Farbfeld,
    RawPixels,
}

/// Why an operation on an image failed.
#[derive(Debug, PartialEq, Eq)]
pub enum Error {
    /// Content sniffing matched no supported container.
    UnknownFormat,
    /// The codec of the sniffed container rejected the bytes.
    DecodeFailed { source: SourceFormat, detail: String },
    /// An orientation value outside 1 to 8.
    InvalidOrientation,
    /// A computed resize target is zero along one axis.
    InvalidDimensions,
    /// A convolution kernel that does not have nine coefficients.
    InvalidKernelSize,
    /// A crop rectangle that reaches beyond the image.
    CropOutOfBounds,
    /// The target encoder cannot represent the image's color layout.
    UnsupportedColorType,
    /// The codec of the target format rejected the write.
    EncodeFailed { target: TargetFormat, detail: String },
}

} // verus!
