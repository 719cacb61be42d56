//! Channels: one-shot, broadcast, and count-limited broadcast queue.

pub mod broadcast;
pub mod broadcastque;
pub mod oneshot;
