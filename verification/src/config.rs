//! Connection settings of the chat endpoint.

use vstd::prelude::*;

verus! {

/// Where requests are sent and which model they ask for.
#[derive(Debug, Clone)]
pub struct ApiConfig {
    pub endpoint: String,
    pub model: String,
}

impl ApiConfig {
    /// The settings used when nothing has been configured.
    pub fn standard() -> (r: ApiConfig)
        ensures
            r.endpoint@ == "https://api.openai.com/v1/chat/completions"@,
            r.model@ == "gpt-3.5-turbo"@,
    {
        ApiConfig {
            endpoint: String::from_str("https://api.openai.com/v1/chat/completions"),
            model: String::from_str("gpt-3.5-turbo"),
        }
    }
}

} // verus!
