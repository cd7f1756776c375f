//! A home-theater control facade over an amplifier and a tuner that the two
//! of them share.
//!
//! The tuner lives in a [`shared::TunerBank`]; the facade and the amplifier
//! each hold a [`shared::TunerHandle`] to it, never the tuner itself. Every
//! access to a shared tuner is a read or a write access that the bank grants
//! or refuses, so a mutation is exclusive at any instant. Every state-changing
//! operation hands back the [`notice::Notice`] that the caller is to show.

pub mod notice;
pub mod tuner;
pub mod shared;
pub mod amplifier;
pub mod home_theater;

pub use amplifier::Amplifier;
pub use home_theater::HomeTheaterFacade;
pub use tuner::Tuner;
