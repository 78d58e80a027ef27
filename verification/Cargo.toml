[package]
name = "someip_gateway"
version = "0.1.0"
edition = "2021"
publish = false

[dependencies]
iceoryx2 = "=0.6.1"
