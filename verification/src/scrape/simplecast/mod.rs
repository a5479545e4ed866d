//! What the hosting platform's API says of a show.

pub mod podcast;
pub mod shared;
