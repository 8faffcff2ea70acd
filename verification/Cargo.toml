[package]
name = "arrow_odbc_py"
version = "0.1.0"
edition = "2021"
publish = false

[dependencies]
arrow = { version = "=60.0.0", default-features = false, features = ["ffi"] }
arrow-odbc = "=26.0.1"
odbc-api = { version = "=29.2.0", features = ["vendored-unix-odbc"] }
log = "=0.4.34"
stderrlog = "=0.6.0"
widestring = "=1.2.1"
