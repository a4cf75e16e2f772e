[package]
name = "workday_debrief"
version = "0.1.0"
edition = "2021"
publish = false

[dependencies]
age = "0.10"
base64 = "0.22"
hostname = "0.4"
rand = "0.8"
serde_json = "1"
