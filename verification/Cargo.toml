[package]
name = "api_core"
version = "0.1.0"
edition = "2021"
publish = false

[dependencies]
actix-cors = "0.7"
actix-web = "4"
async-graphql = "7"
async-graphql-actix-web = "7"
async-graphql-value = "7"
async-trait = "0.1"
aws-config = "1"
aws-sdk-ssm = "1"
convert_case = "0.6"
lambda-web = { version = "0.2", features = ["actix4"] }
serde = { version = "1", features = ["derive"] }
serde_json = "1"
thiserror = "1"
