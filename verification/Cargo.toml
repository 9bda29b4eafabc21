[package]
name = "plonky3-pcs"
version = "0.1.0"
edition = "2021"
publish = false

[dependencies]
bincode = { version = "=2.0.1", features = ["serde"] }
serde = { version = "=1.0.229", features = ["derive"] }
rand = "=0.9.5"
p3-challenger = "=0.3.0"
p3-commit = "=0.3.0"
p3-dft = "=0.3.0"
p3-field = "=0.3.0"
p3-fri = "=0.3.0"
p3-koala-bear = "=0.3.0"
p3-matrix = "=0.3.0"
p3-merkle-tree = "=0.3.0"
p3-monty-31 = "=0.3.0"
p3-poseidon2 = "=0.3.0"
p3-symmetric = "=0.3.0"
p3-uni-stark = "=0.3.0"
p3-util = "=0.3.0"
