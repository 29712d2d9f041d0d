[package]
name = "wiki_words"
version = "0.1.0"
edition = "2021"
publish = false

[dependencies]
regex = "1"
select = "*"
urlencoding = "*"
color-eyre = "*"
futures = "0.3"
hyper = "0.10"
hyper-native-tls = "0.3"
once_cell = "1"
reqwest = "*"
tokio = { version = "1", features = ["macros", "rt-multi-thread"] }
tracing = "0.1"
tracing-subscriber = { version = "*", features = ["env-filter"] }
