//! Client-side state for the Conduit blogging front end: the sign-in
//! controller, the article metadata panel and the session token store,
//! independent of any rendering toolkit.

pub mod types;
pub mod session;
pub mod login;
pub mod article_meta;
