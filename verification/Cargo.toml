[package]
name = "cpu6502"
version = "0.1.0"
edition = "2021"

[dependencies]
olc_pixel_game_engine = "*"
