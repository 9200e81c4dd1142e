[package]
name = "ouch"
version = "0.1.0"
edition = "2021"
publish = false

[dependencies]
flate2 = "*"
bzip2 = "*"
bzip3 = "*"
lz4_flex = "*"
xz2 = "*"
snap = "*"
zstd = "*"
tar = "*"
zip = "*"
sevenz-rust = "*"
unrar = "*"
tempfile = "*"
fs-err = "*"
landlock = "*"
libc = "*"
once_cell = "*"
thiserror = "*"
