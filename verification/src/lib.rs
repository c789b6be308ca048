pub mod avif;
pub mod codecs;
pub mod decode;
pub mod encode;
pub mod error;
pub mod exif;
pub mod fast_resize;
pub mod geometry;
pub mod jpeg;
pub mod orientation;
pub mod pipeline;
pub mod png;
pub mod queue;
pub mod raster;
pub mod session;
pub mod svg;
pub mod task;
pub mod transformer;
pub mod utils;
pub mod webp;
