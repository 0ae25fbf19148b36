//! A relay that republishes a show's episode catalogue as an RSS podcast feed.

pub mod date;
pub mod dispatch;
pub mod feed;
pub mod model;
pub mod render;
pub mod text;
pub mod upstream;
