//! Env-var-substituted JSON configs.

use crate::text::{precedes, precedes_is_irreflexive, str_eq, str_lt};
use std::collections::BTreeMap;
use vstd::prelude::*;
use vstd::string::StringExecFns;

verus! {

/// `serde_json::Error`: the error of the JSON reader and writer, carried through as
/// it is.
#[verifier::external_type_specification]
#[verifier::external_body]
pub struct ExJsonError(serde_json::Error);

/// The error of the JSON reader and writer.
pub type JsonError = serde_json::Error;

/// A key of a config with its value, as texts.
pub type EntryText = (Seq<char>, Seq<char>);

/// The flat object of strings that a JSON text holds, by ascending key; `None` where
/// the text is not such an object.
pub uninterp spec fn json_object(input: Seq<char>) -> Option<Seq<EntryText>>;

/// The flat object of strings that JSON bytes hold, by ascending key; `None` where
/// the bytes are not such an object.
pub uninterp spec fn json_object_of_bytes(input: Seq<u8>) -> Option<Seq<EntryText>>;

/// The JSON text of a flat object of strings.
pub uninterp spec fn json_text(entries: Seq<EntryText>) -> Seq<char>;

/// The JSON bytes of a flat object of strings.
pub uninterp spec fn json_bytes(entries: Seq<EntryText>) -> Seq<u8>;

/// A key in upper snake case.
pub uninterp spec fn upper_snake_case(key: Seq<char>) -> Seq<char>;

/// An error that can occur while templating the configuration.
#[derive(Debug)]
pub enum JsonTemplatingError {
    /// JSON error.
    Json(JsonError),
    /// Environment variable error.
    Env(EnvError),
}

/// An environment variable error.
#[derive(Debug)]
pub struct EnvError {
    /// The environment variable key.
    pub env_var: String,
    /// The error reason.
    pub reason: EnvErrorReason,
}

/// A reason for the environment variable error.
#[derive(Debug)]
pub enum EnvErrorReason {
    /// The value was non-unicode; holds the value's bytes.
    NotUnicode(Vec<u8>),
}

/// The value of an environment variable.
#[derive(Debug, Clone)]
pub enum EnvValue {
    /// A value that is valid unicode.
    Unicode(String),
    /// A value that is not valid unicode, as its bytes.
    NotUnicode(Vec<u8>),
}

/// An environment variable.
#[derive(Debug, Clone)]
pub struct EnvVar {
    /// The name of the variable.
    pub name: String,
    /// The value of the variable.
    pub value: EnvValue,
}

/// The environment variables that a templating run looks into.
///
/// Where a name occurs more than once the first occurrence counts.
#[derive(Debug, Clone)]
pub struct Env {
    /// The variables.
    pub vars: Vec<EnvVar>,
}

/// The value of an environment variable, as a mathematical value.
pub enum EnvValueView {
    /// A value that is valid unicode.
    Unicode(Seq<char>),
    /// A value that is not valid unicode, as its bytes.
    NotUnicode(Seq<u8>),
}

impl View for EnvValue {
    type V = EnvValueView;

    open spec fn view(&self) -> EnvValueView {
        match self {
            EnvValue::Unicode(text) => EnvValueView::Unicode(text@),
            EnvValue::NotUnicode(bytes) => EnvValueView::NotUnicode(bytes@),
        }
    }
}

/// The value that the first variable named `name` among `vars` has.
pub open spec fn lookup_in(vars: Seq<EnvVar>, name: Seq<char>) -> Option<EnvValueView>
    decreases vars.len(),
{
    if vars.len() == 0 {
        None
    } else if vars[0].name@ == name {
        Some(vars[0].value@)
    } else {
        lookup_in(vars.drop_first(), name)
    }
}

impl Env {
    /// The value of the variable `name`, where the environment holds it.
    pub open spec fn lookup(&self, name: Seq<char>) -> Option<EnvValueView> {
        lookup_in(self.vars@, name)
    }

    /// An environment without variables.
    pub fn new() -> (r: Self)
        ensures
            r.vars@.len() == 0,
            forall|name: Seq<char>| r.lookup(name) is None,
    {
        Env { vars: Vec::new() }
    }

    /// Look up the variable `name`.
    pub fn var(&self, name: &str) -> (r: Option<&EnvValue>)
        ensures
            match r {
                Some(value) => self.lookup(name@) == Some(value@),
                None => self.lookup(name@) is None,
            },
    {
        let mut i: usize = 0;
        assert(self.vars@.skip(0) =~= self.vars@);
        while i < self.vars.len()
            invariant
                0 <= i <= self.vars.len(),
                lookup_in(self.vars@, name@) == lookup_in(self.vars@.skip(i as int), name@),
            decreases self.vars.len() - i,
        {
            let ghost rest = self.vars@.skip(i as int);
            assert(rest[0] == self.vars@[i as int]);
            assert(rest.drop_first() =~= self.vars@.skip(i + 1));
            if str_eq(self.vars[i].name.as_str(), name) {
                return Some(&self.vars[i].value);
            }
            i += 1;
        }
        None
    }
}

/// The texts of the entries of a config.
pub open spec fn entry_texts(entries: Seq<(String, String)>) -> Seq<EntryText> {
    entries.map_values(|e: (String, String)| (e.0@, e.1@))
}

/// Whether the entries stand by ascending key.
pub open spec fn ascending_keys(entries: Seq<EntryText>) -> bool {
    forall|i: int, j: int|
        0 <= i < j < entries.len() ==> precedes(#[trigger] entries[i].0, #[trigger] entries[j].0)
}

/// Entries that stand by ascending key hold no key twice.
pub proof fn ascending_keys_are_distinct(entries: Seq<EntryText>)
    requires
        ascending_keys(entries),
    ensures
        distinct_keys(entries),
{
    assert forall|i: int, j: int| 0 <= i < j < entries.len() implies entries[i].0
        != entries[j].0 by {
        assert(precedes(entries[i].0, entries[j].0));
        precedes_is_irreflexive(entries[i].0);
    }
}

/// Whether no key occurs twice.
pub open spec fn distinct_keys(entries: Seq<EntryText>) -> bool {
    forall|i: int, j: int| 0 <= i < j < entries.len() ==> entries[i].0 != entries[j].0
}

/// The name of the environment variable that stands for `key`.
pub open spec fn env_var_name(env_prefix: Seq<char>, key: Seq<char>) -> Seq<char> {
    env_prefix + upper_snake_case(key)
}

/// The value of an entry after substitution: that of its environment variable where it
/// is set to valid unicode, else its own.
pub open spec fn substituted_entry(entry: EntryText, env_prefix: Seq<char>, env: Env) -> EntryText {
    match env.lookup(env_var_name(env_prefix, entry.0)) {
        Some(EnvValueView::Unicode(value)) => (entry.0, value),
        _ => entry,
    }
}

/// The entries after substitution: the same keys in the same order, each with its
/// substituted value.
pub open spec fn substituted(entries: Seq<EntryText>, env_prefix: Seq<char>, env: Env) -> Seq<
    EntryText,
> {
    entries.map_values(|e: EntryText| substituted_entry(e, env_prefix, env))
}

/// Whether the environment variable of `entry` is set to a value that is not unicode.
pub open spec fn is_invalid(entry: EntryText, env_prefix: Seq<char>, env: Env) -> bool {
    env.lookup(env_var_name(env_prefix, entry.0)) is Some && env.lookup(
        env_var_name(env_prefix, entry.0),
    )->0 is NotUnicode
}

/// The index of the first entry whose environment variable is not unicode; the number
/// of entries where there is none.
pub open spec fn first_invalid(entries: Seq<EntryText>, env_prefix: Seq<char>, env: Env) -> int
    decreases entries.len(),
{
    if entries.len() == 0 {
        0
    } else if is_invalid(entries[0], env_prefix, env) {
        0
    } else {
        1 + first_invalid(entries.drop_first(), env_prefix, env)
    }
}

/// `first_invalid` is the least index of an entry whose variable is not unicode.
pub proof fn first_invalid_is_least(entries: Seq<EntryText>, env_prefix: Seq<char>, env: Env)
    ensures
        0 <= first_invalid(entries, env_prefix, env) <= entries.len(),
        first_invalid(entries, env_prefix, env) < entries.len() ==> is_invalid(
            entries[first_invalid(entries, env_prefix, env)],
            env_prefix,
            env,
        ),
        forall|i: int|
            0 <= i < first_invalid(entries, env_prefix, env) ==> !is_invalid(
                #[trigger] entries[i],
                env_prefix,
                env,
            ),
    decreases entries.len(),
{
    if entries.len() == 0 {
    } else if is_invalid(entries[0], env_prefix, env) {
    } else {
        let rest = entries.drop_first();
        first_invalid_is_least(rest, env_prefix, env);
        let k = first_invalid(rest, env_prefix, env);
        if k < rest.len() {
            assert(entries[k + 1] == rest[k]);
        }
        assert forall|i: int| 0 <= i < 1 + k implies !is_invalid(
            #[trigger] entries[i],
            env_prefix,
            env,
        ) by {
            if i > 0 {
                assert(entries[i] == rest[i - 1]);
            }
        }
    }
}

/// What a substitution from the environment comes to.
pub enum Substitution {
    /// Every variable that is set is unicode: the entries with their new values.
    Entries(Seq<EntryText>),
    /// The variable `env_var` is set to `value`, which is not unicode.
    Invalid { env_var: Seq<char>, value: Seq<u8> },
}

/// What substituting `entries` from `env` comes to.
pub open spec fn substitution(entries: Seq<EntryText>, env_prefix: Seq<char>, env: Env) -> Substitution {
    let at = first_invalid(entries, env_prefix, env);
    if at < entries.len() {
        let env_var = env_var_name(env_prefix, entries[at].0);
        Substitution::Invalid { env_var, value: env.lookup(env_var)->0->NotUnicode_0 }
    } else {
        Substitution::Entries(substituted(entries, env_prefix, env))
    }
}

/// What templating a JSON text from the environment comes to.
pub enum Templating {
    /// The text of the config after substitution.
    Text(Seq<char>),
    /// The input is not a flat JSON object of strings.
    Json,
    /// The variable `env_var` is set to `value`, which is not unicode.
    Env { env_var: Seq<char>, value: Seq<u8> },
}

/// What templating `input` from `env` comes to.
pub open spec fn templating(input: Seq<char>, env_prefix: Seq<char>, env: Env) -> Templating {
    match json_object(input) {
        None => Templating::Json,
        Some(entries) => match substitution(entries, env_prefix, env) {
            Substitution::Invalid { env_var, value } => Templating::Env { env_var, value },
            Substitution::Entries(after) => Templating::Text(json_text(after)),
        },
    }
}

/// Whether `result` is what `outcome` describes.
pub open spec fn is_templating(result: Result<String, JsonTemplatingError>, outcome: Templating) -> bool {
    match outcome {
        Templating::Text(text) => result is Ok && result->Ok_0@ == text,
        Templating::Json => result is Err && result->Err_0 is Json,
        Templating::Env { env_var, value } => is_env_error(result, env_var, value),
    }
}

/// Whether `result` is the error of a variable `env_var` set to `value`, which is not unicode.
pub open spec fn is_env_error<T>(result: Result<T, JsonTemplatingError>, env_var: Seq<char>, value: Seq<u8>) -> bool {
    result is Err && result->Err_0 is Env && names_invalid(result->Err_0->Env_0, env_var, value)
}

/// Whether `error` names the variable `env_var` set to `value`, which is not unicode.
pub open spec fn names_invalid(error: EnvError, env_var: Seq<char>, value: Seq<u8>) -> bool {
    error.env_var@ == env_var && error.reason->NotUnicode_0@ == value
}

/// `serde_json::from_str` for a map of strings: the entries of the flat object that
/// `input` holds, by ascending key; an error exactly where `input` is not such an
/// object.
#[verifier::external_body]
fn parse_object(input: &str) -> (r: Result<Vec<(String, String)>, JsonError>)
    ensures
        match r {
            Ok(entries) => json_object(input@) == Some(entry_texts(entries@)) && ascending_keys(
                entry_texts(entries@),
            ),
            Err(_) => json_object(input@) is None,
        },
{
    serde_json::from_str::<BTreeMap<String, String>>(input).map(|m| m.into_iter().collect())
}

/// `serde_json::from_slice` for a map of strings: the entries of the flat object that
/// `input` holds, by ascending key; an error exactly where `input` is not such an
/// object.
#[verifier::external_body]
fn parse_object_bytes(input: &[u8]) -> (r: Result<Vec<(String, String)>, JsonError>)
    ensures
        match r {
            Ok(entries) => json_object_of_bytes(input@) == Some(entry_texts(entries@))
                && ascending_keys(entry_texts(entries@)),
            Err(_) => json_object_of_bytes(input@) is None,
        },
{
    serde_json::from_slice::<BTreeMap<String, String>>(input).map(|m| m.into_iter().collect())
}

/// `serde_json::to_string` for a map of strings: the JSON text of the object with
/// these entries, which stand by ascending key as the map holds them. Writing strings
/// under string keys into memory does not fail.
#[verifier::external_body]
fn write_object(entries: &Vec<(String, String)>) -> (r: Result<String, JsonError>)
    requires
        ascending_keys(entry_texts(entries@)),
    ensures
        r is Ok,
        r->Ok_0@ == json_text(entry_texts(entries@)),
{
    serde_json::to_string(&entries.iter().cloned().collect::<BTreeMap<String, String>>())
}

/// `serde_json::to_vec` for a map of strings: the JSON bytes of the object with
/// these entries, which stand by ascending key as the map holds them. Writing strings
/// under string keys into memory does not fail.
#[verifier::external_body]
fn write_object_bytes(entries: &Vec<(String, String)>) -> (r: Result<Vec<u8>, JsonError>)
    requires
        ascending_keys(entry_texts(entries@)),
    ensures
        r is Ok,
        r->Ok_0@ == json_bytes(entry_texts(entries@)),
{
    serde_json::to_vec(&entries.iter().cloned().collect::<BTreeMap<String, String>>())
}

/// `convert_case::Casing::to_case` with `Case::UpperSnake`: the key in upper snake case.
#[verifier::external_body]
fn to_upper_snake(key: &str) -> (r: String)
    ensures
        r@ == upper_snake_case(key@),
{
    convert_case::Casing::to_case(&key, convert_case::Case::UpperSnake)
}

/// The configuration.
///
/// A flat mapping of string keys to string values, held by ascending key.
#[derive(Debug)]
pub struct Config(Vec<(String, String)>);

impl View for Config {
    type V = Seq<EntryText>;

    closed spec fn view(&self) -> Seq<EntryText> {
        entry_texts(self.0@)
    }
}

impl Config {
    /// The entries stand by ascending key.
    #[verifier::type_invariant]
    spec fn keys_ascend(&self) -> bool {
        ascending_keys(self@)
    }

    /// Whether the entries stand by ascending key, which is so of every config.
    pub open spec fn wf(&self) -> bool {
        ascending_keys(self@)
    }

    /// A config of the given entries, which must stand by ascending key.
    pub fn from_entries(entries: Vec<(String, String)>) -> (r: Option<Self>)
        ensures
            r is Some <==> ascending_keys(entry_texts(entries@)),
            r is Some ==> r->0@ == entry_texts(entries@),
    {
        let ghost texts = entry_texts(entries@);
        let mut j: usize = 1;
        while j < entries.len()
            invariant
                1 <= j,
                texts == entry_texts(entries@),
                forall|a: int, b: int|
                    0 <= a < b < j && b < entries@.len() ==> precedes(
                        #[trigger] texts[a].0,
                        #[trigger] texts[b].0,
                    ),
            decreases entries.len() - j,
        {
            let mut i: usize = 0;
            while i < j
                invariant
                    0 <= i <= j < entries.len(),
                    texts == entry_texts(entries@),
                    forall|a: int| 0 <= a < i ==> precedes(#[trigger] texts[a].0, texts[j as int].0),
                decreases j - i,
            {
                if !str_lt(entries[i].0.as_str(), entries[j].0.as_str()) {
                    assert(!precedes(texts[i as int].0, texts[j as int].0));
                    return None;
                }
                i += 1;
            }
            j += 1;
        }
        Some(Config(entries))
    }

    /// The entries of the config, by ascending key.
    pub fn into_entries(self) -> (r: Vec<(String, String)>)
        ensures
            entry_texts(r@) == self@,
            ascending_keys(entry_texts(r@)),
    {
        proof {
            use_type_invariant(&self);
        }
        self.0
    }

    /// Read and templatify the given input string as JSON using the values of `env`
    /// with the given prefix as configuration values.
    pub fn templatify_from_env(input: &str, env_prefix: &str, env: &Env) -> (r: Result<
        String,
        JsonTemplatingError,
    >)
        ensures
            is_templating(r, templating(input@, env_prefix@, *env)),
    {
        let mut config = match Self::from_json(input) {
            Ok(config) => config,
            Err(err) => return Err(JsonTemplatingError::Json(err)),
        };
        match config.substitute_from_env(env_prefix, env) {
            Ok(()) => {},
            Err(err) => return Err(JsonTemplatingError::Env(err)),
        }
        match config.to_json() {
            Ok(text) => Ok(text),
            Err(err) => Err(JsonTemplatingError::Json(err)),
        }
    }

    /// Read the config from JSON string.
    pub fn from_json(input: &str) -> (r: Result<Self, JsonError>)
        ensures
            match r {
                Ok(config) => json_object(input@) == Some(config@) && config.wf(),
                Err(_) => json_object(input@) is None,
            },
    {
        match parse_object(input) {
            Ok(entries) => Ok(Config(entries)),
            Err(err) => Err(err),
        }
    }

    /// Read the config from JSON bytes.
    pub fn from_json_bytes(input: &[u8]) -> (r: Result<Self, JsonError>)
        ensures
            match r {
                Ok(config) => json_object_of_bytes(input@) == Some(config@) && config.wf(),
                Err(_) => json_object_of_bytes(input@) is None,
            },
    {
        match parse_object_bytes(input) {
            Ok(entries) => Ok(Config(entries)),
            Err(err) => Err(err),
        }
    }

    /// Serialize the config to JSON string, which does not fail.
    pub fn to_json(&self) -> (r: Result<String, JsonError>)
        ensures
            r is Ok,
            r->Ok_0@ == json_text(self@),
    {
        proof {
            use_type_invariant(self);
        }
        write_object(&self.0)
    }

    /// Serialize the config to JSON bytes, which does not fail.
    pub fn to_json_bytes(&self) -> (r: Result<Vec<u8>, JsonError>)
        ensures
            r is Ok,
            r->Ok_0@ == json_bytes(self@),
    {
        proof {
            use_type_invariant(self);
        }
        write_object_bytes(&self.0)
    }

    /// Write the JSON bytes at the end of the given buffer, which does not fail.
    pub fn write_json(&self, w: &mut Vec<u8>) -> (r: Result<(), JsonError>)
        ensures
            r is Ok,
            final(w)@ == old(w)@ + json_bytes(self@),
    {
        proof {
            use_type_invariant(self);
        }
        match write_object_bytes(&self.0) {
            Ok(mut bytes) => {
                w.append(&mut bytes);
                Ok(())
            },
            Err(err) => Err(err),
        }
    }

    /// Take a configuration and substitute its values with the value of the corresponding
    /// variables of `env`, if present.
    ///
    /// Where a variable is set to a value that is not unicode, nothing is substituted.
    pub fn substitute_from_env(&mut self, env_prefix: &str, env: &Env) -> (r: Result<(), EnvError>)
        ensures
            match substitution(old(self)@, env_prefix@, *env) {
                Substitution::Entries(after) => r is Ok && final(self)@ == after,
                Substitution::Invalid { env_var, value } => r is Err && names_invalid(
                    r->Err_0,
                    env_var,
                    value,
                ) && final(self)@ == old(self)@,
            },
            final(self).wf(),
    {
        proof {
            use_type_invariant(&*self);
        }
        let ghost before = self@;
        let mut after: Vec<(String, String)> = Vec::new();
        let mut i: usize = 0;
        proof {
            first_invalid_is_least(before, env_prefix@, *env);
        }
        while i < self.0.len()
            invariant
                0 <= i <= self.0.len(),
                self@ == before,
                ascending_keys(before),
                *self == *old(self),
                after@.len() == i,
                i <= first_invalid(before, env_prefix@, *env) <= before.len(),
                forall|j: int|
                    0 <= j < first_invalid(before, env_prefix@, *env) ==> !is_invalid(
                        #[trigger] before[j],
                        env_prefix@,
                        *env,
                    ),
                first_invalid(before, env_prefix@, *env) < before.len() ==> is_invalid(
                    before[first_invalid(before, env_prefix@, *env)],
                    env_prefix@,
                    *env,
                ),
                forall|j: int|
                    0 <= j < i ==> (#[trigger] after@[j].0@, after@[j].1@) == substituted_entry(
                        before[j],
                        env_prefix@,
                        *env,
                    ),
            decreases self.0.len() - i,
        {
            let key = &self.0[i].0;
            let value = &self.0[i].1;
            assert(before[i as int] == (key@, value@));
            let env_suffix = to_upper_snake(key.as_str());
            let env_var = String::from_str(env_prefix).concat(env_suffix.as_str());
            assert(env_var@ == env_var_name(env_prefix@, key@));
            match env.var(env_var.as_str()) {
                Some(EnvValue::Unicode(val)) => {
                    after.push((key.clone(), val.clone()));
                },
                None => {
                    // Leave the current value as-is.
                    after.push((key.clone(), value.clone()));
                },
                Some(EnvValue::NotUnicode(src)) => {
                    assert(is_invalid(before[i as int], env_prefix@, *env));
                    assert(first_invalid(before, env_prefix@, *env) == i);
                    return Err(
                        EnvError { env_var, reason: EnvErrorReason::NotUnicode(src.clone()) },
                    );
                },
            }
            assert(!is_invalid(before[i as int], env_prefix@, *env));
            i += 1;
        }
        assert(first_invalid(before, env_prefix@, *env) == before.len());
        self.0 = after;
        proof {
            assert(self@ =~= substituted(before, env_prefix@, *env));
            substitution_keeps_keys(before, env_prefix@, *env);
        }
        Ok(())
    }

    /// Return the config keys, in ascending order.
    pub fn keys(&self) -> (r: Vec<&str>)
        ensures
            r@.len() == self@.len(),
            forall|i: int| 0 <= i < r@.len() ==> r@[i]@ == self@[i].0,
    {
        let mut keys: Vec<&str> = Vec::new();
        let mut i: usize = 0;
        while i < self.0.len()
            invariant
                0 <= i <= self.0.len(),
                keys@.len() == i,
                forall|j: int| 0 <= j < i ==> keys@[j]@ == self@[j].0,
            decreases self.0.len() - i,
        {
            keys.push(self.0[i].0.as_str());
            i += 1;
        }
        keys
    }

    /// Return the config key/values, by ascending key.
    pub fn iter(&self) -> (r: Vec<(&str, &str)>)
        ensures
            r@.len() == self@.len(),
            forall|i: int| 0 <= i < r@.len() ==> (r@[i].0@, r@[i].1@) == self@[i],
    {
        let mut pairs: Vec<(&str, &str)> = Vec::new();
        let mut i: usize = 0;
        while i < self.0.len()
            invariant
                0 <= i <= self.0.len(),
                pairs@.len() == i,
                forall|j: int| 0 <= j < i ==> (pairs@[j].0@, pairs@[j].1@) == self@[j],
            decreases self.0.len() - i,
        {
            pairs.push((self.0[i].0.as_str(), self.0[i].1.as_str()));
            i += 1;
        }
        pairs
    }
}

/// Substitution keeps the keys: as many entries, each under its old key, so that no key
/// occurs twice afterwards where none did before.
pub proof fn substitution_keeps_keys(entries: Seq<EntryText>, env_prefix: Seq<char>, env: Env)
    ensures
        substituted(entries, env_prefix, env).len() == entries.len(),
        forall|i: int|
            0 <= i < entries.len() ==> (#[trigger] substituted(entries, env_prefix, env)[i]).0
                == entries[i].0,
        distinct_keys(entries) ==> distinct_keys(substituted(entries, env_prefix, env)),
        ascending_keys(entries) ==> ascending_keys(substituted(entries, env_prefix, env)),
{
}

} // verus!
