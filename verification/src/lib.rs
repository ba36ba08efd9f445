//! Core engine of an authentication service: credential parsing and storage,
//! password hashing, signed session tokens with revocation, and single-use
//! second-factor codes, composed into signup / login / logout / verification
//! flows with a unified error taxonomy.

pub mod error;
pub mod user;
pub mod data_stores;
pub mod hashset_banned_token_store;
pub mod hashmap_user_store;
pub mod hashed_user_store;
pub mod hashmap_two_fa_code_store;
pub mod password_hash;
pub mod auth;
pub mod email_client;
pub mod signup;
pub mod login;
pub mod verify_2fa;
pub mod logout;
pub mod verify_token;
pub mod laws;
