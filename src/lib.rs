//! Safe, reference-counted handles to the nodes of an external frame-processing engine, and the
//! bookkeeping of the two ways of fetching frames from them: a blocking fetch whose error text
//! comes back in a scratch buffer, and asynchronous fetches whose one-shot completion actions are
//! delivered exactly once.
pub mod error;
pub mod fetch;
pub mod handle;
pub mod index;
pub mod node;
