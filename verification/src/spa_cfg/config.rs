//! The configuration specifics.

pub use crate::json_env_cfg::{
    Config, Env, EnvError, EnvErrorReason, EnvValue, EnvVar, JsonError, JsonTemplatingError,
};
