pub mod bytes;
pub mod client;
pub mod external;
pub mod kem;
pub mod text;

pub use client::{Client, HttqError, Response, Route, Session};
pub use kem::{HTTPQLattice, KemError, KeyPair, SecurityLevel};
