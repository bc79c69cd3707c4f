//! The verified core of a repository-management tool server: it reads tool
//! calls out of JSON-RPC requests, describes its tools, keeps every path
//! inside the storage root, builds git command lines, and words every
//! report that a tool sends back.
pub mod text;
pub mod args;
pub mod tools;
pub mod git_tools;
pub mod paths;
pub mod fs_tools;
pub mod exec_tools;
pub mod config;
pub mod rpc;
