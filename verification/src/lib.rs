//! State containers behind a small reactive front end: a keyed collection of
//! editable items and the authentication state that gates its routes.

pub mod auth;
pub mod json;
pub mod store;
pub mod view;
