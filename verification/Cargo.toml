[package]
name = "image_resize"
version = "0.1.0"
edition = "2021"
publish = false

[dependencies]
image = { version = "=0.25.10", default-features = false, features = ["png", "jpeg", "gif", "webp"] }
fast_image_resize = { version = "=6.1.0", features = ["image"] }
libblur = "=0.14.10"
imghdr = "=0.7.0"
url = "=2.5.8"
serde = { version = "1", features = ["derive"] }
lazy_static = "1"
tokio = { version = "1", features = ["macros", "rt-multi-thread"] }
async-trait = "0.1"
ureq = "2"
lambda_runtime = "=1.5.0"
aws_lambda_events = "=1.2.1"
aws-config = "=1.11.0"
aws-sdk-s3 = "=1.152.0"

[dev-dependencies]
base64 = "0.22"
serde_json = "1"
regex = "1"
