//! Scraping, modelling and publishing of hltv.org match fixtures and news.
pub mod constants;
pub mod handlers;
pub mod html;
pub mod models;
pub mod services;
pub mod text;
pub mod time;
