[package]
name = "sb_itchy"
version = "0.1.0"
edition = "2021"
publish = false

[dependencies]
rand = "0.8"
md5 = "0.7"
serde_json = "1"
thiserror = "1"
void = "1"
git2 = "*"
