//! Safe, typed core of a model-serving backend plugin: native status and
//! handle checks, the tensor wire codecs, the response allocator's rules, the
//! completion bridge for nested inference and the lifecycle dispatch rules.
pub mod error;
pub mod codec;
pub mod text;
pub mod tensor;
pub mod allocator;
pub mod server;
pub mod model;
pub mod dispatch;
pub mod client;
pub mod request;
