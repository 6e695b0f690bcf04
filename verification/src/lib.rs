//! Verified core of a VK bot framework: the long-poll state machine, the
//! request parameters of the VK API, the handling of API replies and the
//! reading of events, over a JSON model of the library's own.

pub mod api;
pub mod event;
pub mod json;
pub mod longpoll;
pub mod params;
pub mod text;
pub mod token;
