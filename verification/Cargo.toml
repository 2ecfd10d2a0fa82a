[package]
name = "async_io"
version = "0.1.0"
edition = "2021"
publish = false

[dependencies]
blocking = "1"
compio-buf = "0.8"
compio-io = "*"
concurrent-queue = "2"
futures-io = "0.3"
futures-lite = "2"
polling = "3"
slab = "0.4"
windows-sys = { version = "0.61", features = ["Win32_Foundation", "Win32_Security", "Win32_Security_Authorization", "Win32_Storage_FileSystem", "Win32_System_IO", "Win32_System_Pipes"] }
