[package]
name = "ohos_event_loop"
version = "0.1.0"
edition = "2021"
publish = false

[dependencies]
openharmony-ability = "*"
raw-window-handle = "*"
tracing = "*"
