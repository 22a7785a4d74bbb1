//! The Kiro agent: its settings, the commands that run it and what it offers to choose from.

use crate::command::{
    apply_overrides, bindings, equal_overrides, equal_overrides_change_alike, pairs, profile_pairs,
    same_overrides, CmdOverrides, CommandBuildError, CommandBuilder, CommandParts, CommandView,
    ExecutionEnv,
};
use crate::config::{
    model_named, models_of, vendor_model, AvailabilityInfo, BaseCodingAgent, ConfigView,
    ExecutorConfig, ExecutorDiscoveredOptions, ModelInfo, ModelSelectorConfig, ModelVendor,
    ModelView, PermissionPolicy, VendorView,
};
use crate::outside::{are_plain_words, is_plain_word, shell_words};
use crate::text::{joined, same_optional_text, text_of, texts};
use std::sync::Arc;
use vstd::prelude::*;
use vstd::std_specs::cmp::PartialEqSpec;

verus! {

/// A service that answers when the agent asks for approval.
pub trait ExecutorApprovalService: Send + Sync {

}

/// A text that goes behind every prompt.
#[derive(Clone, Debug, PartialEq, Eq)]
pub struct AppendPrompt(pub Option<String>);

impl Default for AppendPrompt {
    /// No text.
    fn default() -> (append: Self)
        ensures
            append.0 is None,
    {
        AppendPrompt(None)
    }
}

impl AppendPrompt {
    /// The prompt with the text behind it.
    pub open spec fn combined(self, prompt: Seq<char>) -> Seq<char> {
        match self.0 {
            Some(text) => prompt + text@,
            None => prompt,
        }
    }

    /// The prompt with the text behind it.
    pub fn combine_prompt(&self, prompt: &str) -> (whole: String)
        ensures
            whole@ == self.combined(prompt@),
            whole@ == prompt@ + match self.0 {
                Some(text) => text@,
                None => Seq::empty(),
            },
    {
        let mut whole = prompt.to_string();
        match &self.0 {
            Some(text) => {
                whole.append(text.as_str());
            },
            None => {},
        }
        whole
    }
}

/// The settings of a Kiro agent.
#[derive(Clone)]
pub struct Kiro {
    /// A text that goes behind every prompt.
    pub append_prompt: AppendPrompt,
    /// The model to use in place of the one that Kiro picks.
    pub model: Option<String>,
    /// Whether Kiro may use every tool without asking. It may where nothing is said.
    pub trust_all_tools: Option<bool>,
    /// What the profile changes of the command.
    pub cmd: CmdOverrides,
    /// The service that answers when the agent asks for approval.
    pub approvals: Option<Arc<dyn ExecutorApprovalService>>,
}

/// What the command line of Kiro depends on.
pub struct Settings {
    pub model: Option<Seq<char>>,
    pub trust_all_tools: Option<bool>,
}

impl Settings {
    /// Whether Kiro may use every tool without asking.
    pub open spec fn trusts(self) -> bool {
        self.trust_all_tools != Some(false)
    }

    /// The words behind `kiro-cli chat`.
    pub open spec fn params(self) -> Seq<Seq<char>> {
        let start = seq!["--no-interactive"@];
        let with_model = match self.model {
            Some(model) => start + seq!["--model"@, model],
            None => start,
        };
        if self.trusts() {
            with_model + seq!["--trust-all-tools"@]
        } else {
            with_model
        }
    }

    /// The command before the profile changes it.
    pub open spec fn command(self) -> CommandView {
        CommandView { base: "kiro-cli chat"@, params: self.params() }
    }

    /// The settings after what a user chose for one run.
    pub open spec fn overridden(self, config: ConfigView) -> Settings {
        Settings {
            model: if config.model_id is Some {
                config.model_id
            } else {
                self.model
            },
            trust_all_tools: match config.permission_policy {
                Some(policy) => Some(policy == PermissionPolicy::Auto),
                None => self.trust_all_tools,
            },
        }
    }

    /// The choice that stands for these settings.
    pub open spec fn preset(self) -> ConfigView {
        ConfigView {
            executor: BaseCodingAgent::Kiro,
            variant: None,
            model_id: self.model,
            agent_id: None,
            reasoning_id: None,
            permission_policy: Some(
                if self.trusts() {
                    PermissionPolicy::Auto
                } else {
                    PermissionPolicy::Supervised
                },
            ),
        }
    }
}

/// All that is needed to start Kiro on a prompt.
#[derive(Clone, Debug, PartialEq)]
pub struct SpawnPlan {
    /// The program and its arguments.
    pub command: CommandParts,
    /// The environment variables.
    pub env: ExecutionEnv,
    /// What is written to standard input, which is closed behind it.
    pub stdin: String,
}

/// The models that Kiro offers: its own choice, and those of the vendor.
pub open spec fn offered_models(vendor: VendorView) -> Seq<ModelView> {
    seq![
        model_named("auto"@, "Auto"@),
        vendor_model(vendor, "opus-4.6"@, "Opus 4.6"@),
        vendor_model(vendor, "sonnet-4.6"@, "Sonnet 4.6"@),
        vendor_model(vendor, "opus-4.5"@, "Opus 4.5"@),
        vendor_model(vendor, "sonnet-4.5"@, "Sonnet 4.5"@),
        vendor_model(vendor, "sonnet-4"@, "Sonnet 4"@),
        vendor_model(vendor, "haiku-4.5"@, "Haiku 4.5"@),
    ]
}

/// The policies that Kiro offers.
pub open spec fn offered_permissions() -> Seq<PermissionPolicy> {
    seq![PermissionPolicy::Auto, PermissionPolicy::Supervised]
}

/// The base command is read as its two words.
proof fn base_command_words()
    ensures
        are_plain_words(seq!["kiro-cli"@, "chat"@]),
        joined(seq!["kiro-cli"@, "chat"@], seq![' ']) == "kiro-cli chat"@,
{
    reveal_strlit("kiro-cli");
    reveal_strlit("chat");
    reveal_strlit("kiro-cli chat");
    let words = seq!["kiro-cli"@, "chat"@];
    assert(is_plain_word(words[0]));
    assert(is_plain_word(words[1]));
    assert(words.drop_last() == seq!["kiro-cli"@]);
    reveal_with_fuel(joined, 3);
    assert(joined(words, seq![' ']) == "kiro-cli"@ + seq![' '] + "chat"@);
    assert("kiro-cli"@ + seq![' '] + "chat"@ =~= "kiro-cli chat"@);
}

impl Kiro {
    /// What the command line depends on.
    pub open spec fn settings(&self) -> Settings {
        Settings { model: text_of(self.model), trust_all_tools: self.trust_all_tools }
    }

    /// The command: `kiro-cli chat` with its parameters, changed as the profile says.
    pub fn build_command_builder(&self) -> (result: Result<CommandBuilder, CommandBuildError>)
        ensures
            match self.settings().command().overridden(self.cmd) {
                Some(command) => result matches Ok(builder) && builder@ == command,
                None => result matches Err(CommandBuildError::InvalidShellParams(text))
                    && self.cmd.additional_params matches Some(extra) && text@ == joined(
                    texts(extra@),
                    seq![' '],
                ),
            },
            result matches Ok(builder) ==> ({
                &&& builder.base@ == match self.cmd.base_command_override {
                    Some(base) => base@,
                    None => "kiro-cli chat"@,
                }
                &&& builder.params@.len() > 0
                &&& builder.params@[0]@ == "--no-interactive"@
                &&& texts(builder.params@).take(self.settings().params().len() as int)
                    == self.settings().params()
            }),
            self.cmd.additional_params matches Some(extra) ==> (are_plain_words(texts(extra@))
                ==> shell_words(joined(texts(extra@), seq![' '])) == Some(texts(extra@))),
    {
        let mut builder = CommandBuilder::new("kiro-cli chat");
        builder = builder.extend_params(vec!["--no-interactive".to_string()]);
        assert(builder@.params == seq!["--no-interactive"@]);
        if let Some(model) = &self.model {
            builder = builder.extend_params(vec!["--model".to_string(), model.clone()]);
            assert(builder@.params == seq!["--no-interactive"@] + seq!["--model"@, model@]);
        }
        if self.trust_all_tools.unwrap_or(true) {
            let ghost before = builder@.params;
            builder = builder.extend_params(vec!["--trust-all-tools".to_string()]);
            assert(builder@.params == before + seq!["--trust-all-tools"@]);
        }
        assert(builder@ == self.settings().command());
        let ghost own = builder@.params;
        assert(own[0] == "--no-interactive"@);
        let changed = apply_overrides(builder, &self.cmd);
        proof {
            if changed is Ok {
                let params = changed->Ok_0.params@;
                assert(texts(params)[0] == own[0]);
                assert(params.len() == texts(params).len());
                assert(texts(params).take(own.len() as int) =~= own);
            }
        }
        changed
    }

    /// What `spawn_plan` returns where `extra` goes behind the parameters: the plan, or the error
    /// that says why there is none.
    pub open spec fn planned(
        &self,
        extra: Seq<Seq<char>>,
        prompt: Seq<char>,
        env: ExecutionEnv,
        result: Result<SpawnPlan, CommandBuildError>,
    ) -> bool {
        match self.settings().command().overridden(self.cmd) {
            None => {
                &&& result matches Err(CommandBuildError::InvalidShellParams(text))
                &&& self.cmd.additional_params matches Some(params)
                &&& text@ == joined(texts(params@), seq![' '])
            },
            Some(command) => match command.words(extra) {
                None => {
                    &&& result matches Err(CommandBuildError::InvalidBase(base))
                    &&& base@ == command.base
                },
                Some(words) => {
                    &&& result matches Ok(plan)
                    &&& plan.command.words() == words
                    &&& pairs(plan.env.vars@) == pairs(env.vars@) + profile_pairs(self.cmd)
                    &&& bindings(pairs(plan.env.vars@)) == bindings(
                        pairs(env.vars@),
                    ).union_prefer_right(bindings(profile_pairs(self.cmd)))
                    &&& plan.stdin@ == self.append_prompt.combined(prompt)
                },
            },
        }
    }

    /// The additional parameters of the profile, where they are read as they are written: there are
    /// none, or each is a plain word.
    pub open spec fn plain_additional_params(&self) -> Option<Seq<Seq<char>>> {
        match self.cmd.additional_params {
            Some(params) => if are_plain_words(texts(params@)) {
                Some(texts(params@))
            } else {
                None
            },
            None => Some(Seq::empty()),
        }
    }

    /// How to start Kiro on a new prompt.
    pub fn spawn_plan(&self, prompt: &str, env: &ExecutionEnv) -> (result: Result<
        SpawnPlan,
        CommandBuildError,
    >)
        ensures
            self.planned(Seq::empty(), prompt@, *env, result),
            result matches Ok(plan) ==> ({
                &&& plan.stdin@ == prompt@ + match self.append_prompt.0 {
                    Some(text) => text@,
                    None => Seq::empty(),
                }
                &&& pairs(plan.env.vars@) == pairs(env.vars@) + match self.cmd.env {
                    Some(vars) => pairs(vars@),
                    None => Seq::empty(),
                }
                &&& plan.command.words().len() > 0
            }),
            self.cmd.base_command_override is None && self.plain_additional_params() is Some ==> {
                &&& result matches Ok(plan)
                &&& plan.command.words() == seq!["kiro-cli"@, "chat"@] + self.settings().params()
                    + self.plain_additional_params()->0
            },
    {
        let builder = match self.build_command_builder() {
            Ok(builder) => builder,
            Err(error) => return Err(error),
        };
        proof {
            base_command_words();
        }
        let command = match builder.build_initial() {
            Ok(command) => command,
            Err(error) => return Err(error),
        };
        proof {
            let base = shell_words(builder@.base)->0;
            let own = self.settings().params();
            let added = self.plain_additional_params()->0;
            assert(base + (own + added) + Seq::<Seq<char>>::empty() == base + own + added);
            assert(own + Seq::<Seq<char>>::empty() == own);
        }
        Ok(
            SpawnPlan {
                command,
                env: env.with_profile(&self.cmd),
                stdin: self.append_prompt.combine_prompt(prompt),
            },
        )
    }

    /// How to start Kiro on a prompt that goes on with the latest session of the directory.
    pub fn spawn_follow_up_plan(&self, prompt: &str, env: &ExecutionEnv) -> (result: Result<
        SpawnPlan,
        CommandBuildError,
    >)
        ensures
            self.planned(seq!["--resume"@], prompt@, *env, result),
            result matches Ok(plan) ==> ({
                &&& plan.stdin@ == prompt@ + match self.append_prompt.0 {
                    Some(text) => text@,
                    None => Seq::empty(),
                }
                &&& pairs(plan.env.vars@) == pairs(env.vars@) + match self.cmd.env {
                    Some(vars) => pairs(vars@),
                    None => Seq::empty(),
                }
                &&& plan.command.words().len() > 1
                &&& plan.command.words().last() == "--resume"@
            }),
            self.cmd.base_command_override is None && self.plain_additional_params() is Some ==> {
                &&& result matches Ok(plan)
                &&& plan.command.words() == seq!["kiro-cli"@, "chat"@] + self.settings().params()
                    + self.plain_additional_params()->0 + seq!["--resume"@]
            },
    {
        let builder = match self.build_command_builder() {
            Ok(builder) => builder,
            Err(error) => return Err(error),
        };
        proof {
            base_command_words();
        }
        let resume = vec!["--resume".to_string()];
        assert(texts(resume@) == seq!["--resume"@]);
        let command = match builder.build_follow_up(&resume) {
            Ok(command) => command,
            Err(error) => return Err(error),
        };
        proof {
            let base = shell_words(builder@.base)->0;
            let own = self.settings().params();
            let added = self.plain_additional_params()->0;
            assert(base + (own + added) + seq!["--resume"@] == base + own + added + seq![
                "--resume"@,
            ]);
            assert(own + Seq::<Seq<char>>::empty() == own);
        }
        Ok(
            SpawnPlan {
                command,
                env: env.with_profile(&self.cmd),
                stdin: self.append_prompt.combine_prompt(prompt),
            },
        )
    }

    /// Takes over what a user chose for one run: a model, where one is named, and a policy, where
    /// one is named.
    pub fn apply_overrides(&mut self, executor_config: &ExecutorConfig)
        ensures
            final(self).settings() == old(self).settings().overridden(executor_config@),
            match executor_config.model_id {
                Some(model_id) => final(self).model matches Some(model) && model@ == model_id@,
                None => final(self).model == old(self).model,
            },
            match executor_config.permission_policy {
                Some(PermissionPolicy::Auto) => final(self).trust_all_tools == Some(true),
                Some(PermissionPolicy::Supervised) => final(self).trust_all_tools == Some(false),
                None => final(self).trust_all_tools == old(self).trust_all_tools,
            },
            final(self).append_prompt == old(self).append_prompt,
            final(self).cmd == old(self).cmd,
            final(self).approvals == old(self).approvals,
    {
        if let Some(model_id) = &executor_config.model_id {
            self.model = Some(model_id.clone());
        }
        if let Some(permission_policy) = executor_config.permission_policy {
            self.trust_all_tools = Some(matches!(permission_policy, PermissionPolicy::Auto));
        }
    }

    /// Sets the service that answers when the agent asks for approval.
    pub fn use_approvals(&mut self, approvals: Arc<dyn ExecutorApprovalService>)
        ensures
            final(self).approvals matches Some(service) && service == approvals,
            final(self).append_prompt == old(self).append_prompt,
            final(self).model == old(self).model,
            final(self).trust_all_tools == old(self).trust_all_tools,
            final(self).cmd == old(self).cmd,
    {
        let service = Some(approvals);
        self.approvals = service;
    }

    /// The choice that stands for the settings.
    pub fn get_preset_options(&self) -> (config: ExecutorConfig)
        ensures
            config@ == self.settings().preset(),
            config.executor == BaseCodingAgent::Kiro,
            config.variant is None,
            text_of(config.model_id) == text_of(self.model),
            config.agent_id is None,
            config.reasoning_id is None,
            config.permission_policy == Some(
                match self.trust_all_tools {
                    Some(false) => PermissionPolicy::Supervised,
                    _ => PermissionPolicy::Auto,
                },
            ),
    {
        ExecutorConfig {
            executor: BaseCodingAgent::Kiro,
            variant: None,
            model_id: self.model.clone(),
            agent_id: None,
            reasoning_id: None,
            permission_policy: Some(
                if self.trust_all_tools.unwrap_or(true) {
                    PermissionPolicy::Auto
                } else {
                    PermissionPolicy::Supervised
                },
            ),
        }
    }

    /// What Kiro offers to choose from, where `vendor` makes the models.
    pub fn discover_options(&self, vendor: &ModelVendor) -> (options: ExecutorDiscoveredOptions)
        ensures
            models_of(options.model_selector.models@) == offered_models(vendor@),
            text_of(options.model_selector.default_model) == Some("auto"@),
            options.model_selector.permissions@ == offered_permissions(),
            options.model_selector.permissions@ == seq![
                PermissionPolicy::Auto,
                PermissionPolicy::Supervised,
            ],
            options.model_selector.models@.len() == 7,
    {
        let models = vec![
            ModelInfo::named("auto", "Auto"),
            vendor.model("opus-4.6", "Opus 4.6"),
            vendor.model("sonnet-4.6", "Sonnet 4.6"),
            vendor.model("opus-4.5", "Opus 4.5"),
            vendor.model("sonnet-4.5", "Sonnet 4.5"),
            vendor.model("sonnet-4", "Sonnet 4"),
            vendor.model("haiku-4.5", "Haiku 4.5"),
        ];
        assert(models_of(models@) =~= offered_models(vendor@));
        let permissions = vec![PermissionPolicy::Auto, PermissionPolicy::Supervised];
        assert(permissions@ =~= offered_permissions());
        assert(models_of(models@).len() == models@.len());
        ExecutorDiscoveredOptions {
            model_selector: ModelSelectorConfig {
                models,
                default_model: Some("auto".to_string()),
                permissions,
            },
        }
    }

    /// The program whose presence makes Kiro available.
    pub fn program(&self) -> (name: &'static str)
        ensures
            name@ == "kiro-cli"@,
    {
        "kiro-cli"
    }

    /// Whether Kiro is available, given whether its program was found.
    pub fn get_availability_info(&self, program_found: bool) -> (info: AvailabilityInfo)
        ensures
            info == (if program_found {
                AvailabilityInfo::InstallationFound
            } else {
                AvailabilityInfo::NotFound
            }),
    {
        if program_found {
            AvailabilityInfo::InstallationFound
        } else {
            AvailabilityInfo::NotFound
        }
    }

    /// The way from the home directory to the file that lists the tool servers.
    pub fn mcp_config_components(&self) -> (components: Vec<String>)
        ensures
            texts(components@) == seq![".kiro"@, "settings"@, "mcp.json"@],
    {
        let components = vec![
            ".kiro".to_string(),
            "settings".to_string(),
            "mcp.json".to_string(),
        ];
        assert(texts(components@) =~= seq![".kiro"@, "settings"@, "mcp.json"@]);
        components
    }
}

impl PartialEq for Kiro {
    /// Whether all but the approval services are equal.
    fn eq(&self, other: &Kiro) -> (equal: bool) {
        let same_trust = match (self.trust_all_tools, other.trust_all_tools) {
            (Some(a), Some(b)) => a == b,
            (None, None) => true,
            _ => false,
        };
        same_trust && same_optional_text(&self.append_prompt.0, &other.append_prompt.0)
            && same_optional_text(&self.model, &other.model) && same_overrides(
            &self.cmd,
            &other.cmd,
        )
    }
}

impl vstd::std_specs::cmp::PartialEqSpecImpl for Kiro {
    open spec fn obeys_eq_spec() -> bool {
        true
    }

    open spec fn eq_spec(&self, other: &Kiro) -> bool {
        &&& text_of(self.append_prompt.0) == text_of(other.append_prompt.0)
        &&& self.settings() == other.settings()
        &&& equal_overrides(self.cmd, other.cmd)
    }
}

/// Agents that are equal run the same command on the same prompt, whatever their approval services.
pub proof fn equal_agents_run_alike(a: Kiro, b: Kiro, prompt: Seq<char>)
    requires
        a.eq_spec(&b),
    ensures
        a.settings().command().overridden(a.cmd) == b.settings().command().overridden(b.cmd),
        bindings(profile_pairs(a.cmd)) == bindings(profile_pairs(b.cmd)),
        a.append_prompt.combined(prompt) == b.append_prompt.combined(prompt),
        a.settings().preset() == b.settings().preset(),
{
    equal_overrides_change_alike(a.settings().command(), a.cmd, b.cmd);
}

/// What a user chose shows in the preset, and what the user left open stays as it was.
pub proof fn preset_shows_the_choice(settings: Settings, config: ConfigView)
    ensures
        settings.overridden(config).preset() == (ConfigView {
            model_id: if config.model_id is Some {
                config.model_id
            } else {
                settings.preset().model_id
            },
            permission_policy: if config.permission_policy is Some {
                config.permission_policy
            } else {
                settings.preset().permission_policy
            },
            ..settings.preset()
        }),
{
}

/// To choose what the preset says changes neither the command nor the preset.
pub proof fn choosing_the_preset_changes_nothing(settings: Settings)
    ensures
        settings.overridden(settings.preset()).command() == settings.command(),
        settings.overridden(settings.preset()).preset() == settings.preset(),
{
}

/// To choose twice in the same way is to choose once.
pub proof fn choosing_twice_is_choosing_once(settings: Settings, config: ConfigView)
    ensures
        settings.overridden(config).overridden(config) == settings.overridden(config),
{
}

/// Where nothing is said, Kiro is trusted.
pub proof fn trust_is_the_default(model: Option<Seq<char>>)
    ensures
        ({
            let silent = Settings { model, trust_all_tools: None };
            let trusted = Settings { model, trust_all_tools: Some(true) };
            &&& silent.command() == trusted.command()
            &&& silent.preset() == trusted.preset()
        }),
{
}

/// The command asks for trust exactly where the preset says that every use is allowed, and is the
/// same otherwise.
pub proof fn command_follows_the_policy(settings: Settings)
    ensures
        ({
            let supervised = Settings { trust_all_tools: Some(false), ..settings };
            settings.params() == if settings.preset().permission_policy == Some(
                PermissionPolicy::Auto,
            ) {
                supervised.params() + seq!["--trust-all-tools"@]
            } else {
                supervised.params()
            }
        }),
{
}

/// The command that goes on with a session is the command of a new one with `--resume` behind it.
pub proof fn follow_up_adds_resume(command: CommandView)
    ensures
        command.words(seq!["--resume"@]) == match command.words(Seq::empty()) {
            Some(words) => Some(words + seq!["--resume"@]),
            None => None,
        },
{
    if let Some(base) = shell_words(command.base) {
        assert(base + command.params + Seq::<Seq<char>>::empty() == base + command.params);
    }
}

/// The default model and the policy of every preset are among those on offer.
pub proof fn choices_are_on_offer(vendor: VendorView, settings: Settings)
    ensures
        exists|i: int|
            0 <= i < offered_models(vendor).len() && #[trigger] offered_models(vendor)[i].id
                == "auto"@,
        offered_permissions().contains(settings.preset().permission_policy->0),
{
    assert(offered_models(vendor)[0].id == "auto"@);
    assert(offered_permissions()[0] == PermissionPolicy::Auto);
    assert(offered_permissions()[1] == PermissionPolicy::Supervised);
}

/// A prompt with a text behind it is the prompt and then the text; without one it is the prompt.
pub proof fn text_goes_behind_the_prompt(append: AppendPrompt, prompt: Seq<char>)
    ensures
        append.0 matches Some(text) ==> append.combined(prompt) == prompt + text@,
        append.0 is None ==> append.combined(prompt) == prompt,
{
}

/// On the same prompt in the same environment, the plan that goes on with a session and the plan of
/// a new one are there together, or neither is. Both write the prompt, with the text that goes
/// behind it, to standard input, and both set the variables of the environment and then those of
/// the profile. The command that goes on is the other with `--resume` behind it.
pub proof fn follow_up_differs_in_resume_only(
    agent: Kiro,
    prompt: Seq<char>,
    env: ExecutionEnv,
    new: Result<SpawnPlan, CommandBuildError>,
    later: Result<SpawnPlan, CommandBuildError>,
)
    requires
        agent.planned(Seq::empty(), prompt, env, new),
        agent.planned(seq!["--resume"@], prompt, env, later),
    ensures
        new is Ok <==> later is Ok,
        later matches Ok(plan) ==> {
            &&& plan.stdin@ == new->Ok_0.stdin@
            &&& pairs(plan.env.vars@) == pairs(new->Ok_0.env.vars@)
            &&& bindings(pairs(plan.env.vars@)) == bindings(pairs(new->Ok_0.env.vars@))
            &&& plan.command.words() == new->Ok_0.command.words() + seq!["--resume"@]
        },
        new matches Ok(plan) ==> {
            &&& plan.stdin@ == match agent.append_prompt.0 {
                Some(text) => prompt + text@,
                None => prompt,
            }
            &&& pairs(plan.env.vars@) == match agent.cmd.env {
                Some(vars) => pairs(env.vars@) + pairs(vars@),
                None => pairs(env.vars@),
            }
        },
        new matches Err(CommandBuildError::InvalidBase(text)) ==> (later matches Err(
            CommandBuildError::InvalidBase(later_text),
        ) && later_text@ == text@),
        new matches Err(CommandBuildError::InvalidShellParams(text)) ==> (later matches Err(
            CommandBuildError::InvalidShellParams(later_text),
        ) && later_text@ == text@),
        !(new matches Err(CommandBuildError::EmptyCommand)),
        !(later matches Err(CommandBuildError::EmptyCommand)),
{
    if let Some(command) = agent.settings().command().overridden(agent.cmd) {
        follow_up_adds_resume(command);
    }
}

/// A plan is there exactly where the base command and the additional parameters can be read as a
/// shell reads them, and its command is the base command, the parameters of the agent and the
/// additional ones, in this order.
pub proof fn plan_runs_the_whole_command(
    agent: Kiro,
    prompt: Seq<char>,
    env: ExecutionEnv,
    new: Result<SpawnPlan, CommandBuildError>,
)
    requires
        agent.planned(Seq::empty(), prompt, env, new),
    ensures
        ({
            let base = match agent.cmd.base_command_override {
                Some(base) => base@,
                None => "kiro-cli chat"@,
            };
            let added = match agent.cmd.additional_params {
                Some(extra) => shell_words(joined(texts(extra@), seq![' '])),
                None => Some(Seq::empty()),
            };
            &&& new is Ok <==> shell_words(base) is Some && added is Some
            &&& new matches Ok(plan) ==> plan.command.words() == shell_words(base)->0
                + agent.settings().params() + added->0
            &&& (new matches Err(CommandBuildError::InvalidShellParams(_))) <==> added is None
        }),
{
    let own = agent.settings().params();
    if let Some(command) = agent.settings().command().overridden(agent.cmd) {
        if let Some(base) = shell_words(command.base) {
            let none = Seq::<Seq<char>>::empty();
            assert(base + command.params + none == base + command.params);
            assert(own + none == own);
            if agent.cmd.additional_params is Some {
                let added = shell_words(
                    joined(texts(agent.cmd.additional_params->0@), seq![' ']),
                )->0;
                assert(base + (own + added) == base + own + added);
            } else {
                assert(base + own + none == base + own);
            }
        }
    }
}

/// The parameters are `--no-interactive`, then the model under `--model` where one is set, then
/// `--trust-all-tools` unless trust is refused, and nothing else.
pub proof fn parameters_in_order(settings: Settings)
    ensures
        settings.command().base == "kiro-cli chat"@,
        settings.command().params == settings.params(),
        settings.model is None && settings.trust_all_tools == Some(false) ==> settings.params()
            == seq!["--no-interactive"@],
        settings.model is None && settings.trust_all_tools != Some(false) ==> settings.params()
            == seq!["--no-interactive"@, "--trust-all-tools"@],
        settings.model matches Some(model) ==> (settings.trust_all_tools == Some(false)
            ==> settings.params() == seq!["--no-interactive"@, "--model"@, model]),
        settings.model matches Some(model) ==> (settings.trust_all_tools != Some(false)
            ==> settings.params() == seq![
            "--no-interactive"@,
            "--model"@,
            model,
            "--trust-all-tools"@,
        ]),
{
    if let Some(model) = settings.model {
        assert(settings.trust_all_tools == Some(false) ==> settings.params() =~= seq![
            "--no-interactive"@,
            "--model"@,
            model,
        ]);
        assert(settings.trust_all_tools != Some(false) ==> settings.params() =~= seq![
            "--no-interactive"@,
            "--model"@,
            model,
            "--trust-all-tools"@,
        ]);
    } else {
        assert(settings.trust_all_tools != Some(false) ==> settings.params() =~= seq![
            "--no-interactive"@,
            "--trust-all-tools"@,
        ]);
    }
}

/// What a user chose is what the settings say afterwards, and what the user left open is as it was.
pub proof fn choice_is_taken_over(settings: Settings, config: ConfigView)
    ensures
        config.model_id matches Some(model) ==> settings.overridden(config).model == Some(model),
        config.model_id is None ==> settings.overridden(config).model == settings.model,
        config.permission_policy == Some(PermissionPolicy::Auto) ==> settings.overridden(
            config,
        ).trust_all_tools == Some(true),
        config.permission_policy == Some(PermissionPolicy::Supervised) ==> settings.overridden(
            config,
        ).trust_all_tools == Some(false),
        config.permission_policy is None ==> settings.overridden(config).trust_all_tools
            == settings.trust_all_tools,
{
}

/// Agents are equal exactly where the texts behind their prompts, their models, their trust and
/// their profiles are.
pub proof fn agents_are_equal_part_by_part(a: Kiro, b: Kiro)
    ensures
        a.eq_spec(&b) <==> {
            &&& match (a.append_prompt.0, b.append_prompt.0) {
                (Some(left), Some(right)) => left@ == right@,
                (None, None) => true,
                _ => false,
            }
            &&& match (a.model, b.model) {
                (Some(left), Some(right)) => left@ == right@,
                (None, None) => true,
                _ => false,
            }
            &&& a.trust_all_tools == b.trust_all_tools
            &&& equal_overrides(a.cmd, b.cmd)
        },
{
}

/// Kiro offers its own choice and six models of the vendor, each with the identifier and the
/// name of the vendor before its own.
pub proof fn models_on_offer(vendor: VendorView)
    ensures
        offered_models(vendor).len() == 7,
        offered_models(vendor)[0].id == "auto"@,
        offered_models(vendor)[0].name == "Auto"@,
        offered_models(vendor)[1].id == vendor.id + "-opus-4.6"@,
        offered_models(vendor)[1].name == vendor.name + " Opus 4.6"@,
        offered_models(vendor)[2].id == vendor.id + "-sonnet-4.6"@,
        offered_models(vendor)[2].name == vendor.name + " Sonnet 4.6"@,
        offered_models(vendor)[3].id == vendor.id + "-opus-4.5"@,
        offered_models(vendor)[3].name == vendor.name + " Opus 4.5"@,
        offered_models(vendor)[4].id == vendor.id + "-sonnet-4.5"@,
        offered_models(vendor)[4].name == vendor.name + " Sonnet 4.5"@,
        offered_models(vendor)[5].id == vendor.id + "-sonnet-4"@,
        offered_models(vendor)[5].name == vendor.name + " Sonnet 4"@,
        offered_models(vendor)[6].id == vendor.id + "-haiku-4.5"@,
        offered_models(vendor)[6].name == vendor.name + " Haiku 4.5"@,
        forall|i: int|
            0 <= i < 7 ==> (#[trigger] offered_models(vendor)[i]).provider_id is None
                && offered_models(vendor)[i].reasoning_options.len() == 0,
{
    reveal_strlit("-");
    reveal_strlit(" ");
    reveal_strlit("opus-4.6");
    reveal_strlit("-opus-4.6");
    reveal_strlit("Opus 4.6");
    reveal_strlit(" Opus 4.6");
    reveal_strlit("sonnet-4.6");
    reveal_strlit("-sonnet-4.6");
    reveal_strlit("Sonnet 4.6");
    reveal_strlit(" Sonnet 4.6");
    reveal_strlit("opus-4.5");
    reveal_strlit("-opus-4.5");
    reveal_strlit("Opus 4.5");
    reveal_strlit(" Opus 4.5");
    reveal_strlit("sonnet-4.5");
    reveal_strlit("-sonnet-4.5");
    reveal_strlit("Sonnet 4.5");
    reveal_strlit(" Sonnet 4.5");
    reveal_strlit("sonnet-4");
    reveal_strlit("-sonnet-4");
    reveal_strlit("Sonnet 4");
    reveal_strlit(" Sonnet 4");
    reveal_strlit("haiku-4.5");
    reveal_strlit("-haiku-4.5");
    reveal_strlit("Haiku 4.5");
    reveal_strlit(" Haiku 4.5");
    assert("-"@ + "opus-4.6"@ =~= "-opus-4.6"@);
    assert(" "@ + "Opus 4.6"@ =~= " Opus 4.6"@);
    assert("-"@ + "sonnet-4.6"@ =~= "-sonnet-4.6"@);
    assert(" "@ + "Sonnet 4.6"@ =~= " Sonnet 4.6"@);
    assert("-"@ + "opus-4.5"@ =~= "-opus-4.5"@);
    assert(" "@ + "Opus 4.5"@ =~= " Opus 4.5"@);
    assert("-"@ + "sonnet-4.5"@ =~= "-sonnet-4.5"@);
    assert(" "@ + "Sonnet 4.5"@ =~= " Sonnet 4.5"@);
    assert("-"@ + "sonnet-4"@ =~= "-sonnet-4"@);
    assert(" "@ + "Sonnet 4"@ =~= " Sonnet 4"@);
    assert("-"@ + "haiku-4.5"@ =~= "-haiku-4.5"@);
    assert(" "@ + "Haiku 4.5"@ =~= " Haiku 4.5"@);
}

/// The command line depends on the model and the trust of the agent as they stand.
pub proof fn settings_are_those_of_the_agent(agent: Kiro)
    ensures
        agent.model is None <==> agent.settings().model is None,
        agent.model matches Some(model) ==> agent.settings().model == Some(model@),
        agent.settings().trust_all_tools == agent.trust_all_tools,
{
}

/// The preset names Kiro and the model of the settings, and leaves variant, agent and reasoning
/// open. Its policy is `Supervised` exactly where trust is refused.
pub proof fn preset_part_by_part(settings: Settings)
    ensures
        settings.preset().executor == BaseCodingAgent::Kiro,
        settings.preset().variant is None,
        settings.preset().model_id == settings.model,
        settings.preset().agent_id is None,
        settings.preset().reasoning_id is None,
        settings.trust_all_tools == Some(false) ==> settings.preset().permission_policy == Some(
            PermissionPolicy::Supervised,
        ),
        settings.trust_all_tools != Some(false) ==> settings.preset().permission_policy == Some(
            PermissionPolicy::Auto,
        ),
{
}

} // verus!
