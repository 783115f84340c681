//! Mirrors posts published on a VK community wall into a Telegram channel,
//! for any number of independently configured wall/channel pairs.
//!
//! The crate holds the forwarding engine: the per-pair polling state machine
//! ([`vk_poller::poller`]), the pagination and deduplication algorithm that
//! rebuilds a correct delivery order from a paginated "latest N" read API,
//! the content conversion pipeline ([`vk_poller::converter`]), and the
//! registry of running pollers ([`vk_poller`]). Network transport, storage
//! and the operator front-end live outside the crate and talk to it through
//! plain values.

pub mod config;
pub mod db;
pub mod domain;
pub mod vk_api;
pub mod vk_poller;
