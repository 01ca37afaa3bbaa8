use vstd::prelude::*;

verus! {

/// The model asked when none is configured.
pub open spec fn default_model() -> Seq<char> {
    "gpt-5"@
}

/// The prompt that opens every conversation.
pub open spec fn system_prompt_text() -> Seq<char> {
    "You are a chat assistant living in my computer terminal. I am probably trying to get quick answers."@
}

/// The settings a session runs with, fixed at startup.
#[derive(Debug)]
pub struct Config {
    pub api_key: String,
    pub model: String,
}

/// Why a session cannot start.
#[derive(Clone, Copy, Debug, PartialEq, Eq, Structural)]
pub enum ConfigError {
    /// No API key was given.
    MissingApiKey,
}

impl Config {
    /// The settings from the values found at startup: the API key is required;
    /// the model falls back to the default when none is given.
    pub fn from_values(api_key: Option<String>, model: Option<String>) -> (r: Result<
        Config,
        ConfigError,
    >)
        ensures
            api_key is None <==> r == Err::<Config, ConfigError>(ConfigError::MissingApiKey),
            r matches Ok(c) ==> c.api_key@ == api_key->Some_0@ && c.model@ == match model {
                Some(m) => m@,
                None => default_model(),
            },
    {
        match api_key {
            None => Err(ConfigError::MissingApiKey),
            Some(key) => {
                let model = match model {
                    Some(m) => m,
                    None => {
                        proof { reveal_strlit("gpt-5"); }
                        String::from_str("gpt-5")
                    },
                };
                Ok(Config { api_key: key, model })
            },
        }
    }
}

/// The prompt that opens every conversation.
pub fn system_prompt() -> (r: String)
    ensures
        r@ == system_prompt_text(),
{
    proof {
        reveal_strlit(
            "You are a chat assistant living in my computer terminal. I am probably trying to get quick answers.",
        );
    }
    String::from_str(
        "You are a chat assistant living in my computer terminal. I am probably trying to get quick answers.",
    )
}

} // verus!
