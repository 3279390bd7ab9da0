//! A minimal secret-check service, verified with Verus.
//!
//! At startup the service generates one random 128-bit identifier in its
//! canonical hyphenated textual form and holds it, immutable, for the life
//! of the process. Every request is answered from that single value: the
//! root path gets a fixed greeting, a single path segment is compared
//! byte-for-byte against the secret, and anything else is not found.

pub mod router;
pub mod secret;
