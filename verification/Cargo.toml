[package]
name = "servo_allocator"
version = "0.1.0"
edition = "2021"
publish = false

[dependencies]
libc = "0.2"
tikv-jemalloc-sys = "0.6"
tikv-jemallocator = "0.6"
windows-sys = { version = "0.61", features = ["Win32_Foundation", "Win32_System_Memory"] }
