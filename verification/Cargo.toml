[package]
name = "gix_remote"
version = "0.1.0"
edition = "2021"
publish = false

[dependencies]
gix-credentials = "=0.38.2"
gix-features = { version = "=0.48.1", features = ["progress", "prodash"] }
gix-hash = { version = "=0.25.1", features = ["sha1", "sha256"] }
gix-lock = "=23.0.1"
gix-negotiate = "=0.31.0"
gix-odb = "=0.80.0"
gix-pack = { version = "=0.70.0", features = ["generate", "streaming-input"] }
gix-prompt = "=0.15.1"
gix-ref = "=0.63.0"
gix-refspec = "=0.41.0"
gix-shallow = "=0.12.1"
gix-trace = "=0.1.21"
gix-transport = { version = "=0.57.2", features = ["async-client"] }
gix-url = "=0.36.2"
nonempty = "=0.12.0"
thiserror = "2"
