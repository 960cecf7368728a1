[package]
name = "parcel_sourcemap"
version = "0.1.0"
edition = "2021"
publish = false

[dependencies]
vlq = "=0.5.1"
rkyv = "=0.4.3"
napi = "1"
js-sys = "=0.3.106"
wasm-bindgen = "=0.2.129"
