//! Opinionated way of providing deployment time configuration to the Single Page Apps with
//! env-var-substituted JSON.

use crate::json_env_cfg::{
    is_env_error, json_bytes, json_object_of_bytes, substitution, Config, Env, Substitution,
};
use vstd::prelude::*;

pub use crate::json_env_cfg::JsonTemplatingError;

verus! {

/// The JSON templating engine for the SPA configuration.
#[derive(Debug)]
pub struct Engine {
    /// The prefix for the ENV vars to use.
    pub env_prefix: String,
}

/// What applying the engine to JSON data comes to.
pub enum Application {
    /// The data after substitution.
    Data(Seq<u8>),
    /// The data is not a flat JSON object of strings.
    Unreadable,
    /// The variable `env_var` is set to `value`, which is not unicode.
    Env { env_var: Seq<char>, value: Seq<u8> },
}

impl Engine {
    /// What applying the engine to `body` comes to, with the variables of `env`.
    pub open spec fn application(&self, body: Seq<u8>, env: Env) -> Application {
        match json_object_of_bytes(body) {
            None => Application::Unreadable,
            Some(entries) => match substitution(entries, self.env_prefix@, env) {
                Substitution::Invalid { env_var, value } => Application::Env { env_var, value },
                Substitution::Entries(after) => Application::Data(json_bytes(after)),
            },
        }
    }

    /// Apply the SPA configuration to the given JSON data.
    ///
    /// The data is left as it is where the engine fails.
    pub fn apply(&self, body: &mut Vec<u8>, env: &Env) -> (r: Result<(), JsonTemplatingError>)
        ensures
            match self.application(old(body)@, *env) {
                Application::Data(data) => r is Ok && final(body)@ == data,
                Application::Unreadable => r is Err && r->Err_0 is Json
                    && final(body)@ == old(body)@,
                Application::Env { env_var, value } => is_env_error(r, env_var, value)
                    && final(body)@ == old(body)@,
            },
            r is Err ==> final(body)@ == old(body)@,
    {
        let mut config = match Config::from_json_bytes(body.as_slice()) {
            Ok(config) => config,
            Err(err) => return Err(JsonTemplatingError::Json(err)),
        };
        match config.substitute_from_env(self.env_prefix.as_str(), env) {
            Ok(()) => {},
            Err(err) => return Err(JsonTemplatingError::Env(err)),
        }
        match config.to_json_bytes() {
            Ok(data) => {
                *body = data;
                Ok(())
            },
            Err(err) => Err(JsonTemplatingError::Json(err)),
        }
    }
}

} // verus!
