//! The Trusted Application side of the OP-TEE TrustZone SDK: errors, UUIDs,
//! parameters, objects, cryptographic operations, sockets and plugins, with
//! the status codes of the TEE Internal Core API, and the configuration and
//! linking of a TA build.
//!
//! The TEE itself is reached through calls that this library describes and
//! its caller makes: each function that stands for a TEE call returns the
//! call to make, and a function that takes the reply says what comes of it.

pub mod defines;
pub mod error;
pub mod text;
pub mod uuid;
pub mod parameter;
pub mod tee_parameter;
pub mod extension;
pub mod identity;
pub mod time;
pub mod object;
pub mod crypto_op;
pub mod net;
pub mod ta_build;

pub use error::{Error, ErrorKind, ErrorOrigin, Result};
pub use uuid::{Uuid, UuidError};
pub use parameter::{ParamType, ParamTypes, Parameter, Parameters};
pub use tee_parameter::{ParamIndex, TeeParams};
pub use identity::{Identity, LoginType};
pub use time::Time;
pub use extension::{LoadablePlugin, LoadablePluginCommand};
pub mod property;
pub mod arithmetical;
pub mod ta_session;
pub mod entry;
