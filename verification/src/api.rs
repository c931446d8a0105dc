//! The request rules of the account, catalogue and demonstration services:
//! what each handler decides before and after it talks to the store.

pub mod auth;
pub mod category;
pub mod hello;
pub mod product;
pub mod proxy;
pub mod users;
