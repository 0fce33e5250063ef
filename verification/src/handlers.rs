//! The bundled example handlers: small consumers of the capability
//! surface, each one a registered `Runnable` (or a plain entry function).
//! They carry no design of their own; they exist to exercise the API the
//! way a user module would.

pub mod cache_get;
pub mod dbtest;
pub mod fetch;
pub mod fetch_body;
pub mod fetch_plain;
pub mod fetch_test;
pub mod ids;
pub mod jsonio;
pub mod rs_dbtest;
pub mod rs_graphql;
pub mod run_each;
pub mod cache_set;
pub mod content_type;
pub mod get_file;
pub mod get_static;
pub mod hello_echo;
pub mod hello_plain;
pub mod hello_world;
pub mod helloworld_rs;
pub mod log_it;
pub mod modify_url;
pub mod request_log;
pub mod return_err;
pub mod rs_reqset;
pub mod rust_get;
pub mod rust_set;
pub mod rust_urlquery;
pub mod set_array;
