[package]
name = "k23_wasm"
version = "0.1.0"
edition = "2021"

[dependencies]
base64 = "=0.22.1"
cranelift-codegen = { version = "=0.117.2", features = ["riscv64", "x86"] }
cranelift-frontend = "=0.117.2"
hashbrown = "=0.15.5"
libc = "0.2"
rand = "0.9"
rand_chacha = "0.9"
rustix = { version = "0.38", features = ["mm"] }
smallvec = "=1.16.4"
target-lexicon = "=0.13.5"
wasmparser = "=0.226.0"
wast = "226"
