//! A small keyed store of credential-like "slots" together with the
//! view/edit state machine that a form-based UI drives.
//!
//! The store maps decimal-string keys, minted from insertion order, to
//! slot records; the state machine governs how an edited draft is
//! committed back into the store.

pub mod keys;
pub mod slot;
pub mod store;
pub mod machine;
