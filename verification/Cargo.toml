[package]
name = "gps_fix"
version = "0.1.0"
edition = "2021"
publish = false

[dependencies]
jni = "0.21"
ndk-context = "0.1"
log = "0.4"
android_logger = "*"
slint = { version = "*", default-features = false, features = ["std", "compat-1-2", "backend-android-activity-06"] }
