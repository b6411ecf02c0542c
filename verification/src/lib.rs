//! Turns the flights that a set of XContest pilots logged into one RSS 2.0
//! feed: pilot ids are read out of profile pages, flight records out of the
//! site's JSON answers, and the merged flights are rendered newest first.

pub mod cache;
pub mod duration;
pub mod flight_rss;
pub mod json;
pub mod pilot;
pub mod pipeline;
pub mod text;

pub use cache::{CacheError, PilotIdCache};
pub use flight_rss::{feed_item, feed_items, feed_order, generate_rss, render, FeedItem};
pub use pilot::{
    flight_summary, flights_from_document, flights_from_response, flights_from_text,
    flights_request, pilot_id_from_capture, pilot_id_from_page, pilot_id_from_response,
    pilot_page_request, Flight, PilotError, Request, Route,
};
pub use pipeline::{Action, Config, Event, Phase, Run};
