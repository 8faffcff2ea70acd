//! Verified core of a C-callable bridge between an ODBC data source and Arrow consumers.
//!
//! The crate holds the decisions of the bridge: the lifecycle of one query execution, the
//! fetch policy, the hand-over of columnar batches and the error channel. The blocking driver
//! calls themselves are made by the caller, which hands their outcomes to the functions here.
pub mod connection;
pub mod encoding;
pub mod error;
pub mod exchange;
pub mod logging;
pub mod parameter;
pub mod policy;
pub mod reader;
