//! A ratcheting randomness engine for a transactional host.
//!
//! An instance keeps one secret: a state of 32 bytes. Every request that it
//! serves replaces the state by a digest of the state, of the entropy that
//! the request brings (if any) and of the call's context; an output of 32
//! bytes is then derived from the new state on a path of its own, so that
//! what leaves the instance is never what stays in it. How entropy is
//! taken is up to the strategy, which sees to it that a request that brings
//! entropy, even empty entropy, is never digested as a request that brings
//! none.
//!
//! - [`mixer`] is the mixing primitive that the ratchet is built on, and
//!   [`rng_blake2`], [`rng_xood`] and [`rng_sha256chacha20`] are its three
//!   strategies. An instance uses one of them for its whole life.
//! - [`ratchet`] holds the step and the derivation, written once for every
//!   strategy, and what is proved of them.
//! - [`contract`] serves the requests: it loads the state from the
//!   [`storage`], advances it, stores it, and answers.
//! - [`env`] and [`msg`] are the values that come in and go out.
//!
//! The digests themselves come from outside: what this crate proves, it
//! proves about which bytes are digested, in which order, and about what
//! becomes of the state. Nothing here says that a digest is hard to invert
//! or that two digests differ.

pub mod contract;
pub mod env;
pub mod mixer;
pub mod msg;
pub mod ratchet;
pub mod rng_blake2;
pub mod rng_sha256chacha20;
pub mod rng_xood;
pub mod storage;
