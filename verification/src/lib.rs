//! Chat backend: user sign-up / sign-in rules, room naming, the shared
//! table of live chat connections and the routing of chat messages.

pub mod text;
pub mod assoc;
pub mod chat;
pub mod libs;
pub mod models;
pub mod user;
