//! Reading fixtures and news from the site's markup, and publishing them as a
//! calendar and a news feed.
pub mod fixtures;
pub mod news;
