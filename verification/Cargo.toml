[package]
name = "image_transformer"
version = "0.1.0"
edition = "2021"
publish = false

[dependencies]
fast_image_resize = "*"
image = { version = "0.25", default-features = false, features = ["bmp", "ff", "gif", "hdr", "ico", "jpeg", "png", "pnm", "qoi", "tga", "tiff", "webp"] }
imagequant = { version = "4", default-features = false }
infer = "*"
jpeg-decoder = "*"
libavif = "*"
libc = "*"
libwebp-sys = "*"
lodepng = "*"
mozjpeg-sys = "*"
napi = "*"
napi-derive = "*"
num-complex = "*"
num_cpus = "*"
once_cell = "*"
oxipng = { version = "*", default-features = false }
png = "*"
resvg = "*"
rexif = "*"
rgb = "*"
svgtypes = "*"
