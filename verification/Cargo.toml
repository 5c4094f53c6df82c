[package]
name = "injective_auction"
version = "0.1.0"
edition = "2021"
publish = false

[dependencies]
cosmwasm-std = "=3.0.11"
injective-std = "=1.14.1"
# Named by no source file: it holds the derive macros of injective-std to the
# release that injective-std 1.14.1 was written against. Left to itself cargo
# picks a later one, whose output needs cosmwasm-std 3, and injective-std
# 1.14.1 then does not compile.
injective-std-derive = "=1.13.4"
prost = "=0.13.5"
test-tube-inj = "=2.0.11"
