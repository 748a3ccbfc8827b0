[package]
name = "oxide"
version = "0.1.0"
edition = "2021"
publish = false

[dependencies]
toml_edit = "=0.14.4"
shlex = "=1.3.0"
version-compare = "=0.1.1"
ansi_term = "=0.12.1"
heck = "=0.4.1"
Inflector = "=0.11.4"
roff = "=0.1.0"
pulldown-cmark = "=0.9.6"
pulldown-cmark-to-cmark = "=10.0.4"
clap = { version = "=3.2.25", features = ["derive", "env"] }
anyhow = "=1.0.104"
thiserror = "=1.0.69"
dirs = "=4.0.0"
atty = "=0.2.14"
serde_json = "=1.0.154"
open = "=3.2.0"
terminal_size = "=0.2.6"
tabwriter = "=1.4.1"
dialoguer = "=0.10.4"
chrono = "=0.4.45"
chrono-humanize = "=0.2.3"
reqwest = { version = "=0.11.27", default-features = false, features = ["blocking", "json", "rustls-tls"] }
ssh-key = { version = "0.4", features = ["ed25519", "rsa", "p256", "getrandom"] }
