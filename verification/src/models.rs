//! The data that the provider's model list and the finished setup carry.

use vstd::prelude::*;

verus! {

/// A model returned from the provider's models endpoint.
#[derive(Debug)]
pub struct ApiModel {
    pub id: String,
    pub object: Option<String>,
    pub created: Option<u64>,
    pub owned_by: Option<String>,
}

/// The abstract content of an [`ApiModel`].
pub struct ApiModelView {
    pub id: Seq<char>,
    pub object: Option<Seq<char>>,
    pub created: Option<u64>,
    pub owned_by: Option<Seq<char>>,
}

/// The characters of an optional string.
pub open spec fn opt_text(o: Option<String>) -> Option<Seq<char>> {
    match o {
        Some(s) => Some(s@),
        None => None,
    }
}

impl View for ApiModel {
    type V = ApiModelView;

    open spec fn view(&self) -> ApiModelView {
        ApiModelView {
            id: self.id@,
            object: opt_text(self.object),
            created: self.created,
            owned_by: opt_text(self.owned_by),
        }
    }
}

/// The abstract content of a list of models.
pub open spec fn models_view(models: Seq<ApiModel>) -> Seq<ApiModelView> {
    models.map_values(|m: ApiModel| m@)
}

fn clone_opt_string(o: &Option<String>) -> (r: Option<String>)
    ensures
        r == *o,
{
    match o {
        Some(s) => Some(s.clone()),
        None => None,
    }
}

impl Clone for ApiModel {
    fn clone(&self) -> (r: Self)
        ensures
            r == *self,
    {
        ApiModel {
            id: self.id.clone(),
            object: clone_opt_string(&self.object),
            created: self.created,
            owned_by: clone_opt_string(&self.owned_by),
        }
    }
}

/// Response of an OpenAI-compatible models endpoint.
#[derive(Debug, Clone)]
pub struct ModelsResponse {
    pub data: Vec<ApiModel>,
}

/// Final provider configuration.
#[derive(Debug)]
pub struct ProviderConfig {
    pub api_url: String,
    pub api_key: String,
    pub model: String,
}

/// The abstract content of a [`ProviderConfig`].
pub struct ConfigView {
    pub api_url: Seq<char>,
    pub api_key: Seq<char>,
    pub model: Seq<char>,
}

impl View for ProviderConfig {
    type V = ConfigView;

    open spec fn view(&self) -> ConfigView {
        ConfigView { api_url: self.api_url@, api_key: self.api_key@, model: self.model@ }
    }
}

impl Clone for ProviderConfig {
    fn clone(&self) -> (r: Self)
        ensures
            r == *self,
    {
        ProviderConfig {
            api_url: self.api_url.clone(),
            api_key: self.api_key.clone(),
            model: self.model.clone(),
        }
    }
}

} // verus!
