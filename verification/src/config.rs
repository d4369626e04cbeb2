//! Texts that the setup hands to the outside: the models endpoint and its
//! authorization header, and the two files that store the configuration.

use vstd::prelude::*;
use crate::text::ends_with_char;
use crate::models::{ConfigView, ProviderConfig};

verus! {

/// The models endpoint under the API URL `url`.
pub open spec fn models_endpoint_text(url: Seq<char>) -> Seq<char> {
    if url.len() > 0 && url.last() == '/' {
        url + "models"@
    } else {
        url + "/models"@
    }
}

/// The value of the Authorization header for `key`.
pub open spec fn bearer_text(key: Seq<char>) -> Seq<char> {
    "Bearer "@ + key
}

/// The text of `config.toml` for `c`.
pub open spec fn config_toml_text(c: ConfigView) -> Seq<char> {
    "# Codex configuration - auto-generated\nmodel = \""@ + c.model
        + "\"\napproval_policy = \"on-failure\"\nsandbox_mode = \"danger-full-access\"\n\nmodel_provider = \"custom\"\n\n[model_providers.custom]\nname = \"Custom Provider\"\nbase_url = \""@
        + c.api_url + "\"\nenv_key = \"CUSTOM_API_KEY\"\nwire_api = \"responses\"\n"@
}

/// The text of `auth.json` for `c`.
pub open spec fn auth_json_text(c: ConfigView) -> Seq<char> {
    "{\"auth_mode\":\"apikey\",\"openai_api_key\":\""@ + c.api_key + "\"}"@
}

/// The models endpoint under `api_url`: `models` after the URL's trailing
/// slash, or after one that is added.
pub fn models_endpoint(api_url: &str) -> (r: String)
    ensures
        r@ == models_endpoint_text(api_url@),
{
    let mut r = String::from_str(api_url);
    if ends_with_char(api_url, '/') {
        r.append("models");
    } else {
        r.append("/models");
    }
    r
}

/// The value of the Authorization header for `api_key`.
pub fn bearer_value(api_key: &str) -> (r: String)
    ensures
        r@ == bearer_text(api_key@),
{
    let mut r = String::from_str("Bearer ");
    r.append(api_key);
    r
}

/// The content of `config.toml`, which selects the custom provider and model.
pub fn config_toml(config: &ProviderConfig) -> (r: String)
    ensures
        r@ == config_toml_text(config@),
{
    let mut r = String::from_str("# Codex configuration - auto-generated\nmodel = \"");
    r.append(config.model.as_str());
    r.append(
        "\"\napproval_policy = \"on-failure\"\nsandbox_mode = \"danger-full-access\"\n\nmodel_provider = \"custom\"\n\n[model_providers.custom]\nname = \"Custom Provider\"\nbase_url = \"",
    );
    r.append(config.api_url.as_str());
    r.append("\"\nenv_key = \"CUSTOM_API_KEY\"\nwire_api = \"responses\"\n");
    r
}

/// The content of `auth.json`, which holds the API key.
pub fn auth_json(config: &ProviderConfig) -> (r: String)
    ensures
        r@ == auth_json_text(config@),
{
    let mut r = String::from_str("{\"auth_mode\":\"apikey\",\"openai_api_key\":\"");
    r.append(config.api_key.as_str());
    r.append("\"}");
    r
}

} // verus!
