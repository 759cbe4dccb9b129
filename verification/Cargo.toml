[package]
name = "sayable"
version = "0.1.0"
edition = "2021"
publish = false

[dependencies]
sha2 = "=0.10.9"
data-encoding = "=2.11.1"
regex = "=1.13.1"
serde = { version = "=1.0.229", features = ["derive"] }
wasm-bindgen = "=0.2.129"
console_error_panic_hook = "=0.1.7"
swc_core = { version = "=82.2.0", features = ["common", "ecma_ast", "ecma_visit", "ecma_parser", "ecma_parser_typescript", "ecma_codegen"] }
