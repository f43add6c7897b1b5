[package]
name = "direct3d11"
version = "0.3.0"
edition = "2021"
publish = false

[dependencies]
auto-enum = "*"
com-wrapper = "*"
dxgi = "*"
winapi = { version = "0.3", features = ["d3d11", "d3dcommon", "dxgi", "dxgiformat", "dxgitype", "minwindef", "winerror"] }
wio = "0.2"
