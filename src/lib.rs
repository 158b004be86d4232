//! Request-handling logic of a small web application: the replies of its
//! greeting and extractor endpoints, its two kinds of shared counters, and
//! the todo records it stores.

pub mod decimal;
pub mod shared_states;
pub mod extractors;
pub mod todo;
