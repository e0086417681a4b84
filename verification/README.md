# attested_tls

AWS Nitro evidence for certificate-bound attested TLS, with its rules proved in Verus.

An enclave generates a TLS key for each connection, asks its Nitro Security Module for a signed
document that names the client's nonce, the key and the application protocol, and puts that
document into the self-signed certificate that it presents. The client accepts the certificate
only if the document chains to the AWS root, is fresh, is bound to this very connection, and
measures exactly the code that the client's policy allows.

- `src/` is the library. Every function has a contract, and `src/laws.rs` states what holds of
  the library as a whole.
- `app/` puts the library behind the traits of `rustls` and the clock of the standard library.
- `tests/` runs both sides of the handshake with real keys, certificates and documents.

What other crates compute (hashes, signatures, CBOR, X.509, TLS configuration) is called through
small functions marked `external_body`. The comment above each says which function it calls and
what is claimed of it without proof.
