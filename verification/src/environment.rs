//! The deployment environment the service runs in.

use vstd::prelude::*;

use crate::text::{
    all_ascii, ascii_blank, ascii_lowercase, lemma_key_ignores_case, lemma_key_ignores_padding,
    lemma_plain_key, normalized_key, to_lowercase, trim,
};

verus! {

/// Where the service is deployed.
#[derive(PartialEq, Eq, Structural, Debug, Clone, Copy)]
pub enum Environment {
    Local,
    Production,
}

/// The name of an environment, as used in file names and settings.
pub open spec fn environment_name(env: Environment) -> Seq<char> {
    match env {
        Environment::Local => "local"@,
        Environment::Production => "production"@,
    }
}

/// The environment a text names, after lower-casing it and trimming
/// whitespace; `None` when it names none.
pub open spec fn environment_named(s: Seq<char>) -> Option<Environment> {
    let key = normalized_key(s);
    if key == "local"@ {
        Some(Environment::Local)
    } else if key == "production"@ {
        Some(Environment::Production)
    } else {
        None
    }
}

/// The message that rejects an unsupported environment name.
pub open spec fn unsupported_environment_message(s: Seq<char>) -> Seq<char> {
    normalized_key(s) + " is not a supported environment."@
}

/// What parsing `s` as an environment gives.
pub open spec fn parse_environment_spec(s: Seq<char>) -> Result<Environment, Seq<char>> {
    match environment_named(s) {
        Some(env) => Ok(env),
        None => Err(unsupported_environment_message(s)),
    }
}

impl Environment {
    /// The name of this environment.
    pub fn as_str(&self) -> (r: &'static str)
        ensures
            r@ == environment_name(*self),
    {
        match self {
            Environment::Local => "local",
            Environment::Production => "production",
        }
    }

    /// Parses an environment name; case and surrounding whitespace do not
    /// matter. Any other text is refused with a message that names it.
    pub fn parse(s: &str) -> (r: Result<Environment, String>)
        ensures
            r matches Ok(env) ==> parse_environment_spec(s@) == Ok::<Environment, Seq<char>>(env),
            r matches Err(msg) ==> parse_environment_spec(s@) == Err::<Environment, Seq<char>>(
                msg@,
            ),
    {
        let lower = to_lowercase(s);
        let key = trim(lower.as_str());
        let key_string = key.to_string();
        if key_string == "local".to_string() {
            Ok(Environment::Local)
        } else if key_string == "production".to_string() {
            Ok(Environment::Production)
        } else {
            let mut msg = key_string;
            msg.append(" is not a supported environment.");
            Err(msg)
        }
    }

    /// The environment named by the value of the environment variable that
    /// selects it, `local` when the variable is unset.
    pub fn from_variable(value: Option<&str>) -> (r: Result<Environment, String>)
        ensures
            r matches Ok(env) ==> parse_environment_spec(
                match value {
                    Some(v) => v@,
                    None => "local"@,
                },
            ) == Ok::<Environment, Seq<char>>(env),
            r matches Err(msg) ==> parse_environment_spec(
                match value {
                    Some(v) => v@,
                    None => "local"@,
                },
            ) == Err::<Environment, Seq<char>>(msg@),
    {
        match value {
            Some(v) => Environment::parse(v),
            None => Environment::parse("local"),
        }
    }
}

impl std::str::FromStr for Environment {
    type Err = String;

    /// Parses an environment name, as `Environment::parse` does.
    fn from_str(s: &str) -> (r: Result<Environment, String>)
        ensures
            r matches Ok(env) ==> parse_environment_spec(s@) == Ok::<Environment, Seq<char>>(env),
            r matches Err(msg) ==> parse_environment_spec(s@) == Err::<Environment, Seq<char>>(
                msg@,
            ),
    {
        Environment::parse(s)
    }
}

/// Every environment is parsed back from its own name.
pub proof fn law_environment_name_round_trip(env: Environment)
    ensures
        parse_environment_spec(environment_name(env)) == Ok::<Environment, Seq<char>>(env),
{
    reveal_strlit("local");
    reveal_strlit("production");
    lemma_plain_key("local"@);
    lemma_plain_key("production"@);
}

/// Parsing an environment ignores the case of ASCII letters and ASCII
/// whitespace around the name: an ASCII text, padded with such whitespace,
/// parses as any ASCII text that agrees with it once lower-cased.
pub proof fn law_environment_ignores_case_and_padding(
    p: Seq<char>,
    s1: Seq<char>,
    s2: Seq<char>,
    q: Seq<char>,
)
    requires
        all_ascii(s1),
        all_ascii(s2),
        ascii_lowercase(s1) == ascii_lowercase(s2),
        ascii_blank(p),
        ascii_blank(q),
    ensures
        parse_environment_spec(p + s1 + q) == parse_environment_spec(s2),
{
    lemma_key_ignores_padding(p, s1, q);
    lemma_key_ignores_case(s1, s2);
}

} // verus!
