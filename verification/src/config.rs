//! Provider settings of the native runner and what they decide: the provider
//! label, the active model, the status line, the model list offered to the
//! client and the outcome of a model selection.
use crate::proto::ModelInfo;
use crate::text::{append_str, opt_str_view, owned, str_eq};
use vstd::prelude::*;

verus! {

/// `Duration::clone` (std): `Duration` is `Copy`, so the clone is the value itself.
pub assume_specification[ <std::time::Duration as Clone>::clone ](d: &std::time::Duration) -> (r:
    std::time::Duration)
    ensures
        r == *d,
;

/// Which provider the runner talks to, with its credentials.
#[derive(Debug, Clone, PartialEq, Eq)]
pub enum RigProviderConfig {
    Anthropic { api_key: String },
    ChatGptSubscription { credentials: String },
}

/// Adapter settings for one provider.
#[derive(Debug, Clone)]
pub struct RigProviderAdapterConfig {
    pub provider: RigProviderConfig,
    pub timeout: std::time::Duration,
    pub max_tokens: u64,
    pub context_window: u64,
}

/// Explicit native-provider settings supplied by the command line.
#[derive(Debug, Clone)]
pub struct NativeProviderDogfoodConfig {
    pub adapter: RigProviderAdapterConfig,
    pub model: String,
    pub test_delay_ms: Option<u64>,
}

pub open spec fn provider_label_of(provider: RigProviderConfig) -> Seq<char> {
    match provider {
        RigProviderConfig::Anthropic { .. } => "anthropic"@,
        RigProviderConfig::ChatGptSubscription { .. } => "chatgpt-subscription"@,
    }
}

/// The wire label of a provider.
pub fn native_provider_label(provider: &RigProviderConfig) -> (r: &'static str)
    ensures
        r@ == provider_label_of(*provider),
{
    match provider {
        RigProviderConfig::Anthropic { .. } => "anthropic",
        RigProviderConfig::ChatGptSubscription { .. } => "chatgpt-subscription",
    }
}

impl NativeProviderDogfoodConfig {
    pub open spec fn label(&self) -> Seq<char> {
        provider_label_of(self.adapter.provider)
    }

    /// The wire label of the configured provider.
    pub fn provider_label(&self) -> (r: &'static str)
        ensures
            r@ == self.label(),
    {
        native_provider_label(&self.adapter.provider)
    }
}

/// A model as the client sees it: id, display name, provider.
pub open spec fn model_view(m: ModelInfo) -> (Seq<char>, Seq<char>, Seq<char>) {
    (m.id@, m.name@, m.provider@)
}

/// The model the runner reports: the configured provider's model, or a
/// placeholder for an unconfigured provider, or the fixture model.
pub open spec fn active_model(
    provider: Option<NativeProviderDogfoodConfig>,
    setup_error: Option<Seq<char>>,
) -> (Seq<char>, Seq<char>, Seq<char>) {
    match provider {
        Some(p) => (p.model@, p.model@, p.label()),
        None => match setup_error {
            Some(_) => ("provider-unconfigured"@, "Provider Not Configured"@, "native"@),
            None => ("fixture-echo"@, "Fixture Echo"@, "native"@),
        },
    }
}

pub fn native_active_model(
    provider: Option<&NativeProviderDogfoodConfig>,
    provider_setup_error: Option<&str>,
) -> (m: ModelInfo)
    ensures
        model_view(m) == active_model(
            match provider {
                Some(p) => Some(*p),
                None => None,
            },
            opt_str_view(provider_setup_error),
        ),
{
    match provider {
        None => {
            if provider_setup_error.is_some() {
                ModelInfo {
                    id: String::from_str("provider-unconfigured"),
                    name: String::from_str("Provider Not Configured"),
                    provider: String::from_str("native"),
                }
            } else {
                ModelInfo {
                    id: String::from_str("fixture-echo"),
                    name: String::from_str("Fixture Echo"),
                    provider: String::from_str("native"),
                }
            }
        },
        Some(provider) => {
            let label = provider.provider_label();
            ModelInfo { id: provider.model.clone(), name: provider.model.clone(), provider: owned(label) }
        },
    }
}

/// The status line: which provider and model serve prompts, or how to
/// recover from a failed provider setup, or that only fixture prompts and
/// read-only inspection are available.
pub open spec fn status_text(
    provider: Option<NativeProviderDogfoodConfig>,
    setup_error: Option<Seq<char>>,
) -> Seq<char> {
    match provider {
        Some(p) => "backend: native provider dogfood via "@ + p.label() + "/"@ + p.model@
            + "; read/search/list and exact/create edit tools available"@,
        None => match setup_error {
            Some(e) => e + "; set the provider environment and relaunch yach tui"@,
            None => "backend: native dogfood; local read-only project inspection available; provider tools require native-provider"@,
        },
    }
}

pub fn native_status_message(
    provider: Option<&NativeProviderDogfoodConfig>,
    provider_setup_error: Option<&str>,
) -> (s: String)
    ensures
        s@ == status_text(
            match provider {
                Some(p) => Some(*p),
                None => None,
            },
            opt_str_view(provider_setup_error),
        ),
{
    match provider {
        Some(provider) => {
            let model = native_active_model(Some(provider), None);
            let mut s = String::from_str("backend: native provider dogfood via ");
            append_str(&mut s, model.provider.as_str());
            append_str(&mut s, "/");
            append_str(&mut s, model.id.as_str());
            append_str(&mut s, "; read/search/list and exact/create edit tools available");
            s
        },
        None => match provider_setup_error {
            Some(setup_error) => {
                let mut s = owned(setup_error);
                append_str(&mut s, "; set the provider environment and relaunch yach tui");
                s
            },
            None => String::from_str(
                "backend: native dogfood; local read-only project inspection available; provider tools require native-provider",
            ),
        },
    }
}

pub open spec fn choice_views(choices: Seq<(String, String)>) -> Seq<(Seq<char>, Seq<char>)> {
    choices.map_values(|c: (String, String)| (c.0@, c.1@))
}

/// The first `k` curated choices, without the one whose id is `active`, as
/// Anthropic models.
pub open spec fn other_choices(
    choices: Seq<(Seq<char>, Seq<char>)>,
    active: Seq<char>,
    k: nat,
) -> Seq<(Seq<char>, Seq<char>, Seq<char>)>
    decreases k,
{
    if k == 0 || k > choices.len() {
        seq![]
    } else {
        let c = choices[k - 1];
        let before = other_choices(choices, active, (k - 1) as nat);
        if c.0 == active {
            before
        } else {
            before.push((c.0, c.1, "anthropic"@))
        }
    }
}

/// The models offered to the client: the active one first, then, for the
/// Anthropic provider, the curated choices (id, display name) other than
/// the active one, in their order.
pub open spec fn available_models(
    provider: Option<NativeProviderDogfoodConfig>,
    setup_error: Option<Seq<char>>,
    choices: Seq<(Seq<char>, Seq<char>)>,
) -> Seq<(Seq<char>, Seq<char>, Seq<char>)> {
    let active = active_model(provider, setup_error);
    match provider {
        Some(p) => if p.label() == "anthropic"@ {
            seq![active] + other_choices(choices, active.0, choices.len())
        } else {
            seq![active]
        },
        None => seq![active],
    }
}

pub fn native_available_models(
    provider: Option<&NativeProviderDogfoodConfig>,
    provider_setup_error: Option<&str>,
    anthropic_choices: &Vec<(String, String)>,
) -> (models: Vec<ModelInfo>)
    ensures
        models@.map_values(|m: ModelInfo| model_view(m)) == available_models(
            match provider {
                Some(p) => Some(*p),
                None => None,
            },
            opt_str_view(provider_setup_error),
            choice_views(anthropic_choices@),
        ),
{
    let ghost cs = choice_views(anthropic_choices@);
    let active = native_active_model(provider, provider_setup_error);
    let ghost av = model_view(active);
    let mut models: Vec<ModelInfo> = Vec::new();
    let active_id = active.id.clone();
    models.push(active);
    let anthropic = match provider {
        Some(provider) => str_eq(provider.provider_label(), "anthropic"),
        None => false,
    };
    if anthropic {
        let mut k: usize = 0;
        while k < anthropic_choices.len()
            invariant
                cs == choice_views(anthropic_choices@),
                k <= anthropic_choices@.len(),
                active_id@ == av.0,
                models@.map_values(|m: ModelInfo| model_view(m)) == seq![av] + other_choices(
                    cs,
                    av.0,
                    k as nat,
                ),
            decreases anthropic_choices.len() - k,
        {
            let ghost before = models@;
            let id = anthropic_choices[k].0.as_str();
            let name = anthropic_choices[k].1.as_str();
            if !str_eq(id, active_id.as_str()) {
                models.push(
                    ModelInfo { id: owned(id), name: owned(name), provider: String::from_str("anthropic") },
                );
                assert(models@.map_values(|m: ModelInfo| model_view(m)) =~= before.map_values(
                    |m: ModelInfo| model_view(m),
                ).push(model_view(models@.last())));
            }
            k = k + 1;
        }
    } else {
        assert(models@.map_values(|m: ModelInfo| model_view(m)) =~= seq![av]);
    }
    models
}

/// What a model selection between turns leads to: a status line, the
/// model announced as the current one, or both.
#[derive(Debug, Clone, PartialEq, Eq)]
pub struct NativeModelSelectionOutcome {
    pub status: Option<String>,
    pub model_changed: Option<String>,
}

/// A selection is refused while a prompt runs, and when it names another
/// provider than the configured one; without a configured provider the
/// model is only announced; otherwise the configured model changes.
pub fn native_model_selection(
    provider: &mut Option<NativeProviderDogfoodConfig>,
    prompt_in_progress: bool,
    selected_provider: Option<&str>,
    model: String,
) -> (o: NativeModelSelectionOutcome)
    ensures
        prompt_in_progress ==> {
            &&& *final(provider) == *old(provider)
            &&& o.model_changed is None
            &&& o.status is Some
            &&& o.status.unwrap()@ == "model change unavailable while a prompt is in progress"@
        },
        !prompt_in_progress && (*old(provider)) is None ==> {
            &&& *final(provider) == *old(provider)
            &&& o.status is None
            &&& o.model_changed is Some
            &&& o.model_changed.unwrap()@ == model@
        },
        !prompt_in_progress && (*old(provider)) is Some && selected_provider is Some
            && selected_provider.unwrap()@ != old(provider).unwrap().label() ==> {
            &&& *final(provider) == *old(provider)
            &&& o.model_changed is None
            &&& o.status is Some
            &&& o.status.unwrap()@ == "model change rejected: provider "@
                + selected_provider.unwrap()@ + " is not the configured provider ("@
                + old(provider).unwrap().label() + ")"@
        },
        !prompt_in_progress && (*old(provider)) is Some && (selected_provider is None
            || selected_provider.unwrap()@ == old(provider).unwrap().label()) ==> {
            &&& (*final(provider)) is Some
            &&& final(provider).unwrap().adapter == old(provider).unwrap().adapter
            &&& final(provider).unwrap().test_delay_ms == old(provider).unwrap().test_delay_ms
            &&& final(provider).unwrap().model@ == model@
            &&& o.status is Some
            &&& o.status.unwrap()@ == "model changed to "@ + model@
            &&& o.model_changed is Some
            &&& o.model_changed.unwrap()@ == model@
        },
{
    if prompt_in_progress {
        return NativeModelSelectionOutcome {
            status: Some(String::from_str("model change unavailable while a prompt is in progress")),
            model_changed: None,
        };
    }
    match provider {
        None => NativeModelSelectionOutcome { status: None, model_changed: Some(model) },
        Some(config) => {
            let label = config.provider_label();
            if let Some(selected) = selected_provider {
                if !str_eq(selected, label) {
                    let mut s = String::from_str("model change rejected: provider ");
                    append_str(&mut s, selected);
                    append_str(&mut s, " is not the configured provider (");
                    append_str(&mut s, label);
                    append_str(&mut s, ")");
                    return NativeModelSelectionOutcome { status: Some(s), model_changed: None };
                }
            }
            config.model = model.clone();
            let mut s = String::from_str("model changed to ");
            append_str(&mut s, model.as_str());
            NativeModelSelectionOutcome { status: Some(s), model_changed: Some(model) }
        },
    }
}

} // verus!
