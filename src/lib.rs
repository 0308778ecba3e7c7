//! A client for a news headlines API: request building, response
//! classification, and the hand-over of fetched articles to a display.

pub mod model;
pub mod client;
pub mod bridge;

pub use bridge::{NewsCardData, Readlines, ReadlinesConfig};
pub use client::{Country, Endpoint, NewsApi};
pub use model::{map_response_err, Article, NewsApiError, NewsApiResponse};
