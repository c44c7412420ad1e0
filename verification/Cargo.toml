[package]
name = "shellexpand"
version = "0.1.0"
edition = "2021"
publish = false

[dependencies]
dirs = "=7.0.0"
libc = "=0.2.191"
redox_users = "=0.5.3"
winapi = { version = "=0.3.9", features = ["errhandlingapi", "handleapi", "minwindef", "processthreadsapi", "psapi", "securitybaseapi", "userenv", "winbase", "winerror", "winnt"] }

[dev-dependencies]
tempfile = "*"
