//! Presentation rules for the message rows of a chat client.
//!
//! A message row binds a backing message object to widgets: a photo bubble
//! with a caption, a download-progress indicator, and a small icon that
//! reflects the sending state. The widget toolkit and the downloader live
//! outside this crate; what stands here are the decisions the rows make —
//! which photo size to show at a given screen scale, whether a picture can
//! be read from disk or must be fetched first, how a download report is to
//! be presented, and when a row must rebind to a new message.

pub mod indicators;
pub mod photo;
