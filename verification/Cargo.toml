[package]
name = "precompiles"
version = "0.1.0"
edition = "2021"
publish = false

[dependencies]
sp-core = "=3.0.0"
pallet-evm-precompile-simple = "=1.0.0"
pallet-evm-precompile-modexp = "=1.0.0"
pallet-evm-precompile-sha3fips = "=1.0.0"
fp-evm = "=1.0.0"
evm = "=0.25.0"
primitive-types = "=0.9.1"
substrate-bip39 = "=0.4.2"
