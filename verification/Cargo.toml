[package]
name = "graphql_artifact_generation"
version = "0.1.0"
edition = "2021"
publish = false

[dependencies]
colored = "=2.2.0"
pathdiff = "=0.2.3"
structopt = "=0.3.26"
