[package]
name = "toip_tui"
version = "0.1.0"
edition = "2021"
publish = false

[dependencies]
textwrap = "=0.16.4"
ratatui = "=0.26.3"
crossterm = "=0.27.0"
