//! Region capture for a read-aloud screen tool.
//!
//! A session holds one captured bitmap, follows the pointer while a
//! selection rectangle is dragged over it, and hands the selected region on
//! to text recognition and speech. Everything here is a function of plain
//! values: the caller owns the screen, the recognition engine and the voice.

#![allow(unused_imports)]

pub mod geometry;
pub mod outline;
pub mod capture;
pub mod selection;
pub mod pipeline;
pub mod voice;
pub mod settings;
pub mod session;
