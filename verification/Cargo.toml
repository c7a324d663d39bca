[package]
name = "v_storage"
version = "0.2.0"
edition = "2021"
publish = false

[dependencies]
heed = "=0.11.0"
v-individual-model = "=0.2.6"
fs-err = "=3.3.2"

[dev-dependencies]
tempfile = "=3.27.0"
