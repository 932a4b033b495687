[package]
name = "redirect_scheme"
version = "0.1.0"
edition = "2021"
publish = false

[dependencies]
actix-web = "4"
actix-service = "2"
futures = "0.3"
