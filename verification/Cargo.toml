[package]
name = "hazard_generator"
version = "0.1.0"
edition = "2021"
publish = false

[dependencies]
clap = { version = "=4.6.7", features = ["derive"] }
futures = "=0.3.34"
iref = "=3.2.2"
json-ld = "=0.17.2"
minijinja = "=2.24.0"
rdf-types = "=0.22.5"
tracing-subscriber = { version = "=0.3.23", features = ["env-filter"] }
