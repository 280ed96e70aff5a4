[package]
name = "cognito_sigv4"
version = "0.1.0"
edition = "2021"
publish = false

[dependencies]
aws-config = "1"
aws-credential-types = { version = "1", features = ["hardcoded-credentials"] }
aws-sdk-cognitoidentity = "1"
aws-sdk-cognitoidentityprovider = "1"
aws-sigv4 = "1"
aws-smithy-runtime-api = { version = "1", features = ["client"] }
aws-types = "1"
reqwest = "0.12"
serde = { version = "1", features = ["derive"] }
serde_json = "1"
tokio = { version = "1", features = ["macros", "rt-multi-thread"] }
