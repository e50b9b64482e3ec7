[package]
name = "access_control"
version = "0.1.0"
edition = "2021"
publish = false

[dependencies]
winapi = { version = "0.3", features = ["accctrl", "aclapi", "errhandlingapi", "minwinbase", "minwindef", "sddl", "securitybaseapi", "winbase", "winerror", "winnt"] }
