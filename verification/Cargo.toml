[package]
name = "modcli"
version = "0.1.0"
edition = "2021"
publish = false

[dependencies]
convert_case = "*"
git2 = "*"
inquire = "*"
regex = "*"
serde_json = "*"
thiserror = "*"
