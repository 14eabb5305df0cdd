[package]
name = "minify_util"
version = "0.1.0"
edition = "2021"
publish = false

[dependencies]
swc_atoms = "=0.2.13"
swc_common = "=0.13.5"
swc_ecma_ast = "=0.54.5"
swc_ecma_utils = "=0.47.2"
swc_ecma_visit = "=0.40.1"
unicode-xid = "=0.2.6"
# Not used directly: later releases of these do not compile with the swc crates above.
scoped-tls = "=1.0.0"
serde = "=1.0.199"
swc_macros_common = "=0.3.6"

[dev-dependencies]
swc_ecma_parser = "=0.73.15"
