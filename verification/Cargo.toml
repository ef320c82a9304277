[package]
name = "rs_libinjection"
version = "0.1.0"
edition = "2021"
publish = false

[dependencies]
wasmtime = { version = "=46.0.3", default-features = false, features = ["cranelift", "runtime", "std", "wat"] }
wasmtime-wasi = { version = "=46.0.3", default-features = false, features = ["p1"] }
lazy_static = "=1.5.1"
criterion = { version = "=0.8.2", default-features = false }

[dev-dependencies]
threadpool = "=1.8.1"
