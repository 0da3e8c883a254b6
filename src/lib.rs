//! Programmable fake HTTP and gRPC endpoints for tests: request model, mock
//! registry with priority selection and use limits, and server lifecycle rules.
pub mod method;
pub mod mock;
pub mod request;
pub mod mock_set;
pub mod state;
pub mod server;
