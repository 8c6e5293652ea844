//! A server-rendered single-page starter, modelled and verified: a home page
//! with a click counter, a catch-all not-found page, a first-match router over
//! a fixed route table, a document-head metadata registry, and the response
//! status rule for server-side rendering.

pub mod app;
pub mod counter;
pub mod head;
pub mod response;
pub mod router;
pub mod view;
