//! Oblivious DNS and the services around it, each function with a
//! machine-checked contract.
//!
//! The transport splits who asks from what is asked: a proxy sees the client
//! and forwards its query only in encrypted form; a resolver decrypts and
//! answers without ever seeing the client.
//!
//! * [`protocol`]: length-prefixed framing.
//! * [`crypto`]: Kyber-1024 encapsulation, HKDF-SHA3-512 and
//!   XChaCha20-Poly1305 around each query.
//! * [`signatures`], [`sphincs_fallback`]: hybrid Ed448 + Dilithium5
//!   signatures and the hash-based fallback.
//! * [`proxy`], [`resolver`], [`keys`]: the two services as state machines,
//!   key loading, generation and rotation.
//! * [`dnssec`], [`models`], [`resolvers`], [`policy`], [`consent`],
//!   [`blockchain`], [`db`]: the record API's rules.
//! * [`validator`], [`limiter`], [`handlers`], [`config`]: the Webmention
//!   ingress filter.
//! * [`primitives`], [`sig_primitives`], [`codec_primitives`]: the calls
//!   into outside crates, with what is taken on trust about each.
//! * [`text`]: shared text operations.

pub mod blockchain;
pub mod codec_primitives;
pub mod config;
pub mod consent;
pub mod crypto;
pub mod db;
pub mod dnssec;
pub mod handlers;
pub mod keys;
pub mod limiter;
pub mod models;
pub mod policy;
pub mod primitives;
pub mod protocol;
pub mod proxy;
pub mod resolver;
pub mod resolvers;
pub mod sig_primitives;
pub mod signatures;
pub mod sphincs_fallback;
pub mod text;
pub mod validator;
