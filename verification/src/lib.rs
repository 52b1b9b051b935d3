use vstd::prelude::*;

pub mod text;
pub mod env;
pub mod http;
pub mod json;
pub mod error;
pub mod page;
pub mod contacts;
pub mod configuration;
pub mod auth;
pub mod upload;
pub mod files;
pub mod logs;
pub mod share;
pub mod flow;
pub mod ops;
pub mod transfer;
pub mod laws;

pub use crate::ops::{add_contact, delete_page, delete_pages, remove_contact, share_page, share_pages, token};

verus! {
}
