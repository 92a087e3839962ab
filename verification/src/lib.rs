//! Scoped, hash-verified symbolic triplet records.
//!
//! A triplet is a subject–verb–attribute statement tagged with a semantic
//! scope and protected by a content digest. The record is split into a
//! header, a body and an optional tail that share one identity.
//!
//! - [`scope`]: the closed set of scopes and the table of their names.
//! - [`identity`]: the 128-bit identity of a triplet.
//! - [`value`]: the tokens of a statement and the values of its attribute.
//! - [`parts`]: the body and the tail.
//! - [`digest`]: the integrity digest and its comparison.
//! - [`record`]: sealing, verifying, storing and loading a triplet.
//! - [`wire`] and [`value_wire`]: the canonical bytes of everything stored.
//! - [`laws`]: what holds of sealing and loading for every record.
//! - [`scalar`]: numbers that carry their unit or purpose in their type.
//! - [`persona`]: a person who greets and grows older.
//! - [`text`]: comparing texts and writing numbers in decimal.
//!
//! A record is built from a body and, for a procedure or a program, a tail;
//! sealing computes the digest of both and fixes the record. What is read
//! back from storage is checked again before it is handed out: first its
//! structure, then the presence of the tail against the scope, then the
//! digest.
pub mod digest;
pub mod error;
pub mod identity;
pub mod laws;
pub mod parts;
pub mod persona;
pub mod record;
pub mod scalar;
pub mod scope;
pub mod text;
pub mod value;
pub mod value_wire;
pub mod wire;

pub use digest::Digest;
pub use error::RecordError;
pub use identity::Identity;
pub use parts::{Body, ExportBuffer, Tail};
pub use persona::Persona;
pub use record::{Header, IntegrityHasher, TripletRecord, Verification};
pub use scalar::{Count, Kilometers, Meters, Score, Seconds, UserId};
pub use scope::{ScopeCode, ScopeRegistry};
pub use value::{ActiveWord, AnyValue, Symbol};
