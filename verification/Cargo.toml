[package]
name = "android_env"
version = "0.1.0"
edition = "2021"
publish = false

[dependencies]
jni = "0.21"
makepad-android-state = "*"
ndk-context = "0.1"
