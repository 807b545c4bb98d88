//! The protocol core of an ACME (RFC 8555) client.
//!
//! Nothing here touches the network: the caller owns the HTTPS transport
//! and hands each response back to the state machines of this crate, which
//! decide what is sent next.
//!
//! * [`acc`]: the account key and the registered account.
//! * [`jwt`]: the public key as a JWK, its thumbprint, and signed requests.
//! * [`trans`]: the nonce that each request consumes, and the one retry
//!   that a refused nonce is worth.
//! * [`req`]: responses, and how a failure is told from a success.
//! * [`order`]: the life cycle of an order, its authorizations and
//!   challenges, and the flows that finalize and validate.
//! * [`cert`]: certificate keys, signing requests, and the issued
//!   certificate.
//! * [`api`]: the documents of the server, and the payloads sent to it.
//! * [`json`], [`util`]: JSON strings, base64url, SHA-256, and comparing
//!   texts.
//! * [`error`]: the error type.
//!
//! What the crate takes from other libraries (signatures, digests,
//! certificates) it checks where it can before it hands it on: a signature
//! is verified, a generated key is compared with the layout of its curve,
//! and a signing request is searched for the names it was made for.

pub mod acc;
pub mod api;
pub mod cert;
pub mod error;
pub mod json;
pub mod jwt;
pub mod order;
pub mod req;
pub mod trans;
pub mod util;
