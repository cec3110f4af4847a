//! A verified model of a host-scoped memory and configuration core:
//! arena allocation with registered destructors, buffer chains for response
//! bodies, and a broad-to-narrow configuration merge cascade.

pub mod arena;
pub mod bytes;
pub mod buffer;
pub mod chain;
pub mod conf;
pub mod hello_world;
pub mod http;
pub mod ngx_string;
pub mod status;
