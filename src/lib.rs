//! Sandboxed execution of untrusted reconnaissance modules: the line protocol
//! between a supervisor and its child, the decisions of both sides, and the
//! command line that selects the child's role.
pub mod protocol;
pub mod supervisor;
pub mod worker;
pub mod isolation;
pub mod args;
