[package]
name = "gitalite"
version = "0.1.0"
edition = "2021"
publish = false

[dependencies]
time = { version = "=0.3.55", features = ["formatting"] }
extract-frontmatter = "=4.1.1"
git2 = "0.14"
tokio = { version = "1", features = ["full"] }
serde = { version = "1", features = ["derive"] }
serde_json = "1"
serde_qs = "0.10"
ron = "0.7"
toml = "0.5"
cocoon = "0.3"
clap = { version = "3", features = ["derive"] }
log = "0.4"
pretty_env_logger = "0.4"
eyre = "0.6"
color-eyre = "0.6"
thiserror = "1"
axum = { version = "0.5", features = ["headers"] }
axum-extra = { version = "0.3", features = ["cookie"] }
async-session = "3"
oauth2 = { version = "4", default-features = false }
maud = "0.23"
tera = "1"
katex = "0.4"
pandoc = "0.8"
pandoc_ast = "0.8"
mime_guess = "2"
urlencoding = "2"
walkdir = "2"
