//! Verified core of an archiver for a torrent index: query parsing, page
//! parsing, record building and the decisions that the scraper, the task
//! runner and the web front end make.

pub mod text;
pub mod query;
pub mod password;
pub mod models;
pub mod category;
pub mod dom;
pub mod scrape;
pub mod records;
pub mod util;
pub mod fetch;
pub mod schedule;
pub mod web;
pub mod audit;
pub mod work;
