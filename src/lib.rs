//! Authentication core: credential checks, one-time second-factor challenges,
//! signed session tokens and token revocation.

pub mod app_state;
pub mod auth;
pub mod data_stores;
pub mod email;
pub mod error;
pub mod hashing;
pub mod hashmap_two_fa_code_store;
pub mod hashmap_user_store;
pub mod hashset_banned_token_store;
pub mod flow_lemmas;
pub mod password;
pub mod routes;
pub mod table;
pub mod text;
pub mod user;
