[package]
name = "checklist_commander"
version = "0.1.0"
edition = "2021"
publish = false

[dependencies]
serde_json = "*"
ReentryUDP = "*"
dotenvy = "*"
