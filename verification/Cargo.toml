[package]
name = "ldap"
version = "0.1.0"
edition = "2021"
publish = false

[dependencies]
base64 = "0.22"
ldap3 = "0.11"
rand = "0.8"
sha1 = "0.10"
