[package]
name = "ball_in_a_box"
version = "0.1.0"
edition = "2021"
publish = false

[dependencies]
circular-buffer = "=1.2.1"
nanoserde = "=0.2.1"
quad-rand = "=0.2.3"
