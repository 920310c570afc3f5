[package]
name = "asphalt"
version = "0.1.0"
edition = "2021"
publish = false

[dependencies]
anyhow = "=1.0.104"
bytes = "=1.12.1"
fs-err = "=3.3.2"
log = "=0.4.35"
lz4_flex = "=0.14.0"
rbx_dom_weak = "=4.2.0"
rbx_reflection_database = "=3.0.1"
rbx_xml = "=3.0.1"
relative-path = "=2.0.3"
roblox_install = "=1.2.0"
serde = "=1.0.229"
zstd = "=0.14.3"

[dev-dependencies]
rbx_binary = "=3.0.1"
rbx_reflection = "=7.0.0"
