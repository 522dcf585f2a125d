//! A terminal client's core for a streaming music service: the browsable
//! history of catalog results with its selection, the commands that drive it,
//! and the handoff of decoders to the audio callback.

pub mod bridge;
pub mod controller;
pub mod elements;
pub mod item;
