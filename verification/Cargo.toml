[package]
name = "zkp_backend"
version = "0.1.0"
edition = "2021"
publish = false

[dependencies]
rand = "=0.8.8"
rand_core = { version = "=0.6.4", features = ["getrandom"] }
getrandom = { version = "=0.2.17", features = ["custom"] }
plonky2 = "=1.1.0"
dusk-plonk = "=0.14.1"
dusk-bytes = "=0.1.7"
derive-hex = "=0.1.2"
ark-bn254 = "=0.3.0"
ark-bls12-381 = "=0.3.0"
ark-ff = "=0.3.0"
ark-groth16 = "=0.3.0"
ark-marlin = "=0.3.0"
ark-poly = "=0.3.0"
ark-poly-commit = "=0.3.0"
ark-relations = "=0.3.0"
ark-serialize = "=0.3.0"
ark-std = "=0.3.0"
blake2 = "=0.9.2"
bulletproofs = "=4.0.0"
curve25519-dalek-ng = "=4.1.1"
merlin = "=3.0.0"
anyhow = "1"
ic-cdk = "=0.12.3"
candid = "=0.10.37"
ic-cdk-macros = "=0.8.4"
