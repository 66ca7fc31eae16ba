[package]
name = "flying_camera"
version = "0.1.0"
edition = "2021"
publish = false

[dependencies]
# Named only for its `syn` features: bevy 0.7's derive crates need `syn/full`
# and do not ask for it themselves.
async-trait = "=0.1.60"
bevy = { version = "=0.7.0", default-features = false, features = ["bevy_render"] }
leafwing-input-manager = { version = "=0.3.0", default-features = false }
