[package]
name = "io_bluetooth"
version = "0.1.0"
edition = "2021"
publish = false

[dependencies]
libc = "0.2"
libbluetooth = "0.1"
winapi = { version = "0.3", features = ["bthdef", "guiddef", "winerror", "ws2def", "handleapi", "processthreadsapi", "winbase", "winnt", "winsock2", "ws2bth"] }
