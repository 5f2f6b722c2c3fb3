//! Verified core of a digest generator for a Telegram channel: it picks the
//! most commented, reacted, forwarded and viewed posts of a period and turns
//! them into the cards and blocks that the page templates show.

pub mod action;
pub mod period;
pub mod post;
pub mod top;
pub mod report;
pub mod text;
pub mod icon;
pub mod card;
pub mod page;
pub mod login;
pub mod paths;
pub mod laws;
