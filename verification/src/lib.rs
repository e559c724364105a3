//! Core rules of an electronic-signature service: one-time passcodes,
//! account linking over a messaging channel, session credentials and the
//! registration of documents with their signers.

pub mod auth;
pub mod bot;
pub mod chance;
pub mod clock;
pub mod documents;
pub mod face;
pub mod json;
pub mod otp;
pub mod responses;
pub mod session;
pub mod state;
pub mod telegram;
pub mod text;
pub mod upload;
pub mod users;
pub mod whatsapp;
