//! A slash-command webhook core that pens chat messages into the book of
//! stars: it recognises a message permalink in the command text, queues a
//! star request, and decides, step by step, what the single background worker
//! does with each request and which reply the invoking user receives.

pub mod handler;
pub mod link;
pub mod queue;
pub mod reply;
pub mod request;
pub mod worker;
