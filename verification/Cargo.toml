[package]
name = "photon-count-adjuster"
version = "0.1.0"
edition = "2021"
publish = false

[dependencies]
ddc-winapi = "*"
native-windows-gui = "*"
native-windows-derive = "*"
winapi = { version = "0.3", features = ["highlevelmonitorconfigurationapi", "winnt", "minwindef"] }
