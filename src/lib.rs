//! Binary workflow graphs: each node runs a function that may or may not give
//! an output, and hands on to a success branch or a failure branch. A graph is
//! either walked on the calling thread, or served by one worker per node that
//! polls a named queue.
pub mod workflows;
pub mod sync_executor;
pub mod async_executor;
