[package]
name = "gitoxide"
version = "0.1.0"
edition = "2021"
publish = false

[dependencies]
anyhow = "=1.0.104"
argh = "=0.1.19"
prodash = { version = "=31.0.1", features = ["render-tui", "render-tui-crossterm", "render-line", "render-line-crossterm"] }
smol = "=2.0.2"
structopt = "=0.3.26"
