pub mod media;
pub mod mediatrack;
pub mod models;
pub mod paginator;
pub mod session;
pub mod source;
pub mod store;
pub mod watchlist;
