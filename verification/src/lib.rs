pub mod compile;
pub mod discovery;
pub mod invocation;
pub mod link;
