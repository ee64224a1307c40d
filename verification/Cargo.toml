[package]
name = "mesh_viewer"
version = "0.1.0"
edition = "2021"
publish = false

[dependencies]
wgpu = "0.2"
tobj = "0.1"
glsl-to-spirv = "0.1"
