[package]
name = "conclave_room_net"
version = "0.1.0"
edition = "2021"
publish = false

[dependencies]
conclave-room = "*"
conclave-room-serialize = "*"
flood-rs = "*"
