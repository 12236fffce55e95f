[package]
name = "loc"
version = "0.1.0"
edition = "2021"
publish = false

[dependencies]
memchr = "2"
smallvec = "1"
edit-distance = "2"
clap = "2"
ignore = "0.4"
deque = "0.3"
num_cpus = "1"
regex = "1"
memmap = "0.5"
thread-scoped = "1"
libc = "0.2"
