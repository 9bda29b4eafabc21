//! A commit-open-verify harness for a FRI polynomial commitment scheme over
//! the KoalaBear field.
//!
//! A prover commits to a trace matrix, draws an opening point from its
//! transcript, opens the commitment at that point and at its successor on the
//! trace domain, and bundles the result into a [`utilities::Proof`]. A verifier
//! with an identically seeded transcript draws the same point and checks the
//! opening.
//!
//! The cryptography is done by the Plonky3 crates; the module [`pcs`] holds the
//! calls into them and states what is taken on trust about each. Everything
//! else is verified.

pub mod field;
pub mod trace;
pub mod pcs;
pub mod encoding;
pub mod utilities;
