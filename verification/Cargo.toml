[package]
name = "tracing_opentelemetry_fmt"
version = "0.1.0"
edition = "2021"
publish = false

[dependencies]
opentelemetry = "*"
tracing = "*"
tracing-opentelemetry = "*"
tracing-subscriber = "*"
