[package]
name = "spotifyfetch"
version = "0.1.0"
edition = "2021"
publish = false

[dependencies]
base64 = "*"
rand = "*"
sha2 = "*"
serde_json = "*"
url = "*"
serde = { version = "*", features = ["derive"] }
confy = "*"
dirs = "*"
open = "*"
reqwest = { version = "*", default-features = false, features = ["blocking"] }
tiny_http = "*"
image = { version = "*", default-features = false, features = ["jpeg", "png"] }
viuer = "*"
