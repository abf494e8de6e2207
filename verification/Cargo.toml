[package]
name = "ngx_runtime"
version = "0.1.0"
edition = "2021"
publish = false

[dependencies]
allocator-api2 = "=0.4.0"
async-task = "=4.7.1"
bindgen = "*"
bytes = "=1.12.1"
cc = "*"
flume = { version = "=0.12.0", default-features = false }
foreign-types = "=0.5.0"
http-body = "=1.1.0"
pin-project-lite = "=0.2.17"
regex = "=1.13.1"
