[package]
name = "shabby"
version = "0.1.0"
edition = "2021"
publish = false

[dependencies]
kdl = "=6.7.1"
shell-words = "=1.1.1"
rand = "=0.10.3"
etcetera = "=0.11.0"
# Not used directly: holds grammers-crypto's pre-release dependency at the
# release candidate whose API it compiles against, which version unification
# would otherwise move past.
glass_pumpkin = "=2.0.0-rc0"
clap = { version = "=4.6.7", features = ["derive", "env"] }
color-eyre = "=0.6.5"
grammers-client = { version = "=0.10.0", features = ["markdown"] }
grammers-session = { version = "=0.10.0", features = ["sqlite-storage"] }
tokio = { version = "=1.53.2", features = ["macros", "rt-multi-thread", "signal"] }
tracing = "=0.1.44"
tracing-subscriber = "=0.3.23"
