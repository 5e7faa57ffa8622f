[package]
name = "gradient"
version = "0.5.0"
edition = "2021"
publish = false

[dependencies]
colorgrad = { version = "=0.8.0", features = ["preset", "named-colors", "ggr", "lab"] }
csscolorparser = "0.8.4"
lexopt = "=0.3.2"
svg = "=0.18.0"
terminal_size = "=0.4.4"
