[package]
name = "no_jsx_as_prop"
version = "0.1.0"
edition = "2021"
publish = false

[dependencies]
oxc_ast = "0.8.0"
oxc_diagnostics = "0.8.0"
oxc_span = "0.8.0"

[dev-dependencies]
oxc_allocator = "0.8.0"
oxc_parser = "0.8.0"
