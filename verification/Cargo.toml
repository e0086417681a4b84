[package]
name = "attested_tls"
version = "0.1.0"
edition = "2021"
publish = false

[dependencies]
aws-nitro-enclaves-nsm-api = "*"
coset = "*"
rcgen = { version = "0.14", default-features = false, features = ["crypto", "ring"] }
ring = "0.17"
rustls = { version = "0.23", default-features = false, features = ["ring", "std", "tls12"] }
sha2 = "0.10"
thiserror = "2"
x509-parser = { version = "*", features = ["verify"] }
