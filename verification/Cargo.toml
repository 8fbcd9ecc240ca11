[package]
name = "nsm-driver"
version = "0.1.0"
edition = "2021"
publish = false

[dependencies]
aws-nitro-enclaves-nsm-api = { version = "*", default-features = false }
serde_cbor = "=0.11.2"
nix = { version = "=0.29.0", features = ["ioctl", "fs"] }
libc = "=0.2.190"
log = "=0.4.34"

[dev-dependencies]
serde_bytes = "=0.11.19"
