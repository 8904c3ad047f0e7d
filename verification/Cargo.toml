[package]
name = "villagekit"
version = "0.1.0"
edition = "2021"
publish = false

[dependencies]
fastnum = { version = "=0.7.5", features = ["serde"] }
serde = { version = "=1.0.229", features = ["derive"] }
serde_json = "=1.0.154"
dyn-clone = "=1.0.20"
glam = "=0.29.3"
bevy = { version = "0.15", default-features = false, features = ["bevy_asset", "bevy_color", "bevy_core_pipeline", "bevy_gizmos", "bevy_mesh_picking_backend", "bevy_pbr", "bevy_picking", "bevy_render", "bevy_window", "jpeg", "png"] }
bevy_editor_cam = "0.5"
bevy_infinite_grid = "0.14"
