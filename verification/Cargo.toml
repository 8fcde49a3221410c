[package]
name = "solid_jsx_oxc"
version = "0.1.0"
edition = "2021"
publish = false

[dependencies]
indexmap = "=2.14.2"
rustc-hash = "=2.1.3"
serde = { version = "=1.0.229", features = ["derive"] }
oxc_allocator = "=0.143.0"
oxc_ast = "=0.143.0"
oxc_ast_visit = "=0.143.0"
oxc_codegen = "=0.143.0"
oxc_parser = "=0.143.0"
oxc_semantic = "=0.143.0"
oxc_span = "=0.143.0"
oxc_syntax = "=0.143.0"
