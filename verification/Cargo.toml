[package]
name = "eventhubs_producer"
version = "0.1.0"
edition = "2021"
publish = false

[dependencies]
uuid = { version = "*", features = ["v4"] }
url = "*"
azure_core = { version = "*", default-features = false }
azure_core_amqp = "*"
async-std = "*"
