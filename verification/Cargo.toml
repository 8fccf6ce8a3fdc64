[package]
name = "ecma_ident"
version = "0.1.0"
edition = "2021"
publish = false

[dependencies]
either = "1"
swc_atoms = "*"
swc_common = "*"
swc_ecma_ast = "*"
swc_ecma_lexer = "*"
