//! What a user chooses for an agent, and what an agent offers to choose from.

use crate::text::{text_of, texts};
use vstd::prelude::*;

verus! {

/// Who decides whether a tool may be used.
#[derive(Clone, Copy, Debug, PartialEq, Eq, Structural)]
pub enum PermissionPolicy {
    /// Every use is allowed.
    Auto,
    /// The user is asked.
    Supervised,
}

/// The agents that can be run.
#[derive(Clone, Copy, Debug, PartialEq, Eq, Structural)]
pub enum BaseCodingAgent {
    Kiro,
}

/// Whether the program of an agent is there.
#[derive(Clone, Copy, Debug, PartialEq, Eq, Structural)]
pub enum AvailabilityInfo {
    InstallationFound,
    NotFound,
}

/// What a user chooses for one run.
#[derive(Clone, Debug, PartialEq, Eq)]
pub struct ExecutorConfig {
    pub executor: BaseCodingAgent,
    pub variant: Option<String>,
    pub model_id: Option<String>,
    pub agent_id: Option<String>,
    pub reasoning_id: Option<String>,
    pub permission_policy: Option<PermissionPolicy>,
}

/// The values that an `ExecutorConfig` holds.
pub struct ConfigView {
    pub executor: BaseCodingAgent,
    pub variant: Option<Seq<char>>,
    pub model_id: Option<Seq<char>>,
    pub agent_id: Option<Seq<char>>,
    pub reasoning_id: Option<Seq<char>>,
    pub permission_policy: Option<PermissionPolicy>,
}

impl View for ExecutorConfig {
    type V = ConfigView;

    open spec fn view(&self) -> ConfigView {
        ConfigView {
            executor: self.executor,
            variant: text_of(self.variant),
            model_id: text_of(self.model_id),
            agent_id: text_of(self.agent_id),
            reasoning_id: text_of(self.reasoning_id),
            permission_policy: self.permission_policy,
        }
    }
}

/// A model that can be chosen.
#[derive(Clone, Debug, PartialEq, Eq)]
pub struct ModelInfo {
    pub id: String,
    pub name: String,
    pub provider_id: Option<String>,
    /// The names of the reasoning options.
    pub reasoning_options: Vec<String>,
}

/// The values that a `ModelInfo` holds.
#[verifier::ext_equal]
pub struct ModelView {
    pub id: Seq<char>,
    pub name: Seq<char>,
    pub provider_id: Option<Seq<char>>,
    pub reasoning_options: Seq<Seq<char>>,
}

impl View for ModelInfo {
    type V = ModelView;

    open spec fn view(&self) -> ModelView {
        ModelView {
            id: self.id@,
            name: self.name@,
            provider_id: text_of(self.provider_id),
            reasoning_options: texts(self.reasoning_options@),
        }
    }
}

/// A model with neither provider nor reasoning options.
pub open spec fn model_named(id: Seq<char>, name: Seq<char>) -> ModelView {
    ModelView { id, name, provider_id: None, reasoning_options: Seq::empty() }
}

impl ModelInfo {
    /// A model with neither provider nor reasoning options.
    pub fn named(id: &str, name: &str) -> (model: Self)
        ensures
            model@ == model_named(id@, name@),
            model.id@ == id@,
            model.name@ == name@,
            model.provider_id is None,
            model.reasoning_options@.len() == 0,
    {
        let model = ModelInfo {
            id: id.to_string(),
            name: name.to_string(),
            provider_id: None,
            reasoning_options: Vec::new(),
        };
        assert(model@.reasoning_options == Seq::<Seq<char>>::empty());
        model
    }
}

/// Who makes the models.
#[derive(Clone, Debug, PartialEq, Eq)]
pub struct ModelVendor {
    /// What stands before the identifier of each model.
    pub id: String,
    /// What stands before the name of each model.
    pub name: String,
}

/// The texts that a `ModelVendor` holds.
pub struct VendorView {
    pub id: Seq<char>,
    pub name: Seq<char>,
}

impl View for ModelVendor {
    type V = VendorView;

    open spec fn view(&self) -> VendorView {
        VendorView { id: self.id@, name: self.name@ }
    }
}

/// A model of a vendor: the identifier and the name of the vendor stand before those of the model.
pub open spec fn vendor_model(vendor: VendorView, id: Seq<char>, name: Seq<char>) -> ModelView {
    model_named(vendor.id + "-"@ + id, vendor.name + " "@ + name)
}

impl ModelVendor {
    /// A model of the vendor, with neither provider nor reasoning options.
    pub fn model(&self, id: &str, name: &str) -> (model: ModelInfo)
        ensures
            model@ == vendor_model(self@, id@, name@),
            model.id@ == self.id@ + "-"@ + id@,
            model.name@ == self.name@ + " "@ + name@,
            model.provider_id is None,
            model.reasoning_options@.len() == 0,
    {
        let full_id = self.id.clone().concat("-").concat(id);
        let full_name = self.name.clone().concat(" ").concat(name);
        ModelInfo::named(full_id.as_str(), full_name.as_str())
    }
}

/// The models and policies to choose from.
#[derive(Clone, Debug, PartialEq, Eq)]
pub struct ModelSelectorConfig {
    pub models: Vec<ModelInfo>,
    pub default_model: Option<String>,
    pub permissions: Vec<PermissionPolicy>,
}

/// The models in order.
pub open spec fn models_of(models: Seq<ModelInfo>) -> Seq<ModelView> {
    models.map_values(|model: ModelInfo| model@)
}

/// What an agent offers to choose from.
#[derive(Clone, Debug, PartialEq, Eq)]
pub struct ExecutorDiscoveredOptions {
    pub model_selector: ModelSelectorConfig,
}

/// No value of a choice is lost or changed in its view.
pub proof fn choices_show_their_values(config: ExecutorConfig)
    ensures
        config@.executor == config.executor,
        config@.permission_policy == config.permission_policy,
        config.variant is None <==> config@.variant is None,
        config.variant matches Some(text) ==> config@.variant == Some(text@),
        config.model_id is None <==> config@.model_id is None,
        config.model_id matches Some(text) ==> config@.model_id == Some(text@),
        config.agent_id is None <==> config@.agent_id is None,
        config.agent_id matches Some(text) ==> config@.agent_id == Some(text@),
        config.reasoning_id is None <==> config@.reasoning_id is None,
        config.reasoning_id matches Some(text) ==> config@.reasoning_id == Some(text@),
{
}

/// No value of a model is lost or changed in its view.
pub proof fn models_show_their_values(models: Seq<ModelInfo>, i: int)
    requires
        0 <= i < models.len(),
    ensures
        models_of(models).len() == models.len(),
        models_of(models)[i].id == models[i].id@,
        models_of(models)[i].name == models[i].name@,
        models[i].provider_id is None <==> models_of(models)[i].provider_id is None,
        models[i].provider_id matches Some(text) ==> models_of(models)[i].provider_id == Some(
            text@,
        ),
        models_of(models)[i].reasoning_options.len() == models[i].reasoning_options@.len(),
        forall|k: int|
            0 <= k < models[i].reasoning_options@.len() ==> #[trigger] models_of(
                models,
            )[i].reasoning_options[k] == models[i].reasoning_options@[k]@,
{
}

} // verus!
