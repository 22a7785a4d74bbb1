use kiro_executor::command::{CmdOverrides, CommandBuildError, ExecutionEnv};
use kiro_executor::config::{
    AvailabilityInfo, BaseCodingAgent, ExecutorConfig, ModelVendor, PermissionPolicy,
};
use kiro_executor::kiro::{AppendPrompt, ExecutorApprovalService, Kiro, SpawnPlan};
use std::sync::Arc;

struct AlwaysYes;

impl ExecutorApprovalService for AlwaysYes {}

fn agent(model: Option<&str>, trust_all_tools: Option<bool>) -> Kiro {
    Kiro {
        append_prompt: AppendPrompt::default(),
        model: model.map(|m| m.to_string()),
        trust_all_tools,
        cmd: CmdOverrides::default(),
        approvals: None,
    }
}

fn no_env() -> ExecutionEnv {
    ExecutionEnv { vars: vec![] }
}

fn words(plan: &SpawnPlan) -> Vec<&str> {
    let mut all = vec![plan.command.program.as_str()];
    all.extend(plan.command.args.iter().map(|a| a.as_str()));
    all
}

fn strings(list: &[&str]) -> Vec<String> {
    list.iter().map(|s| s.to_string()).collect()
}

fn choice(model_id: Option<&str>, permission_policy: Option<PermissionPolicy>) -> ExecutorConfig {
    ExecutorConfig {
        executor: BaseCodingAgent::Kiro,
        variant: None,
        model_id: model_id.map(|m| m.to_string()),
        agent_id: None,
        reasoning_id: None,
        permission_policy,
    }
}

#[test]
fn applies_model_and_permission_overrides() {
    let mut executor = Kiro {
        append_prompt: AppendPrompt::default(),
        model: None,
        trust_all_tools: None,
        cmd: CmdOverrides::default(),
        approvals: None,
    };

    executor.apply_overrides(&ExecutorConfig {
        executor: BaseCodingAgent::Kiro,
        variant: None,
        model_id: Some("sonnet-4.5".to_string()),
        agent_id: None,
        reasoning_id: None,
        permission_policy: Some(PermissionPolicy::Supervised),
    });

    assert_eq!(executor.model.as_deref(), Some("sonnet-4.5"));
    assert_eq!(executor.trust_all_tools, Some(false));
}

#[test]
fn exposes_supervised_preset_when_trust_is_disabled() {
    let executor = Kiro {
        append_prompt: AppendPrompt::default(),
        model: Some("auto".to_string()),
        trust_all_tools: Some(false),
        cmd: CmdOverrides::default(),
        approvals: None,
    };

    let preset = executor.get_preset_options();
    assert_eq!(preset.model_id.as_deref(), Some("auto"));
    assert_eq!(preset.permission_policy, Some(PermissionPolicy::Supervised));
}

#[test]
fn the_whole_preset_of_a_silent_agent() {
    assert_eq!(
        agent(None, None).get_preset_options(),
        choice(None, Some(PermissionPolicy::Auto))
    );
    assert_eq!(
        agent(Some("m"), Some(true)).get_preset_options(),
        choice(Some("m"), Some(PermissionPolicy::Auto))
    );
}

#[test]
fn what_is_not_chosen_stays() {
    let mut executor = agent(Some("m"), Some(false));
    executor.apply_overrides(&choice(None, None));
    assert_eq!(executor.model.as_deref(), Some("m"));
    assert_eq!(executor.trust_all_tools, Some(false));
    executor.apply_overrides(&choice(None, Some(PermissionPolicy::Auto)));
    assert_eq!(executor.model.as_deref(), Some("m"));
    assert_eq!(executor.trust_all_tools, Some(true));
    executor.apply_overrides(&choice(Some("n"), None));
    assert_eq!(executor.model.as_deref(), Some("n"));
    assert_eq!(executor.trust_all_tools, Some(true));
}

#[test]
fn choosing_the_preset_keeps_preset_and_command() {
    for trust in [None, Some(true), Some(false)] {
        for model in [None, Some("auto")] {
            let before = agent(model, trust);
            let preset = before.get_preset_options();
            let mut after = agent(model, trust);
            after.apply_overrides(&preset);
            assert_eq!(after.get_preset_options(), preset);
            assert_eq!(
                after.build_command_builder(),
                before.build_command_builder()
            );
            let mut twice = after.clone();
            twice.apply_overrides(&preset);
            assert!(twice == after);
        }
    }
}

#[test]
fn the_command_of_a_silent_agent() {
    let builder = agent(None, None).build_command_builder().unwrap();
    assert_eq!(builder.base, "kiro-cli chat");
    assert_eq!(
        builder.params,
        strings(&["--no-interactive", "--trust-all-tools"])
    );
}

#[test]
fn silence_is_trust() {
    let silent = agent(Some("m"), None);
    let trusted = agent(Some("m"), Some(true));
    assert_eq!(
        silent.build_command_builder(),
        trusted.build_command_builder()
    );
    assert_eq!(silent.get_preset_options(), trusted.get_preset_options());
}

#[test]
fn equal_agents_have_the_same_plan() {
    let mut approved = agent(Some("m"), None);
    approved.use_approvals(Arc::new(AlwaysYes));
    let plain = agent(Some("m"), None);
    assert!(approved == plain);
    assert_eq!(
        approved.spawn_plan("p", &no_env()),
        plain.spawn_plan("p", &no_env())
    );
}

#[test]
fn the_command_with_a_model_and_without_trust() {
    let builder = agent(Some("acme-opus-4.6"), Some(false))
        .build_command_builder()
        .unwrap();
    assert_eq!(builder.base, "kiro-cli chat");
    assert_eq!(
        builder.params,
        strings(&["--no-interactive", "--model", "acme-opus-4.6"])
    );
}

#[test]
fn a_plan_for_a_new_prompt() {
    let mut executor = agent(Some("acme-haiku-4.5"), None);
    executor.append_prompt = AppendPrompt(Some(" Be brief.".to_string()));
    let plan = executor.spawn_plan("Fix the bug.", &no_env()).unwrap();
    assert_eq!(
        words(&plan),
        vec![
            "kiro-cli",
            "chat",
            "--no-interactive",
            "--model",
            "acme-haiku-4.5",
            "--trust-all-tools"
        ]
    );
    assert_eq!(plan.stdin, "Fix the bug. Be brief.");
    assert_eq!(plan.env.vars, vec![]);
}

#[test]
fn a_follow_up_adds_resume() {
    let executor = agent(None, Some(false));
    let first = executor.spawn_plan("a", &no_env()).unwrap();
    let later = executor.spawn_follow_up_plan("a", &no_env()).unwrap();
    assert_eq!(words(&first), vec!["kiro-cli", "chat", "--no-interactive"]);
    assert_eq!(
        words(&later),
        vec!["kiro-cli", "chat", "--no-interactive", "--resume"]
    );
    assert_eq!(later.stdin, "a");
}

#[test]
fn the_profile_changes_command_and_environment() {
    let mut executor = agent(None, None);
    executor.cmd = CmdOverrides {
        base_command_override: Some("'/opt/my tools/kiro' chat -v".to_string()),
        additional_params: Some(strings(&["--agent", "'two words'"])),
        env: Some(vec![("A".to_string(), "2".to_string())]),
    };
    let env = ExecutionEnv {
        vars: vec![
            ("A".to_string(), "1".to_string()),
            ("B".to_string(), "1".to_string()),
        ],
    };
    let plan = executor.spawn_follow_up_plan("p", &env).unwrap();
    assert_eq!(
        words(&plan),
        vec![
            "/opt/my tools/kiro",
            "chat",
            "-v",
            "--no-interactive",
            "--trust-all-tools",
            "--agent",
            "two words",
            "--resume"
        ]
    );
    let vars: std::collections::HashMap<String, String> = plan.env.vars.into_iter().collect();
    assert_eq!(vars.len(), 2);
    assert_eq!(vars["A"], "2");
    assert_eq!(vars["B"], "1");
}

#[test]
fn commands_that_cannot_be_read_are_refused() {
    let mut executor = agent(None, None);
    executor.cmd.additional_params = Some(strings(&["--agent", "\"open"]));
    assert_eq!(
        executor.build_command_builder(),
        Err(CommandBuildError::InvalidShellParams(
            "--agent \"open".to_string()
        ))
    );
    assert!(matches!(
        executor.spawn_plan("p", &no_env()),
        Err(CommandBuildError::InvalidShellParams(_))
    ));

    let mut executor = agent(None, None);
    executor.cmd.base_command_override = Some("kiro-cli 'chat".to_string());
    assert!(executor.build_command_builder().is_ok());
    match executor.spawn_plan("p", &no_env()) {
        Err(error) => assert_eq!(
            error,
            CommandBuildError::InvalidBase("kiro-cli 'chat".to_string())
        ),
        Ok(_) => panic!("an open quote was read"),
    }
}

#[test]
fn what_is_on_offer() {
    let offer = agent(None, None)
        .discover_options(&ModelVendor {
            id: "acme".to_string(),
            name: "Acme".to_string(),
        })
        .model_selector;
    let models: Vec<(&str, &str)> = offer
        .models
        .iter()
        .map(|m| (m.id.as_str(), m.name.as_str()))
        .collect();
    assert_eq!(
        models,
        vec![
            ("auto", "Auto"),
            ("acme-opus-4.6", "Acme Opus 4.6"),
            ("acme-sonnet-4.6", "Acme Sonnet 4.6"),
            ("acme-opus-4.5", "Acme Opus 4.5"),
            ("acme-sonnet-4.5", "Acme Sonnet 4.5"),
            ("acme-sonnet-4", "Acme Sonnet 4"),
            ("acme-haiku-4.5", "Acme Haiku 4.5"),
        ]
    );
    assert!(offer
        .models
        .iter()
        .all(|m| m.provider_id.is_none() && m.reasoning_options.is_empty()));
    assert_eq!(offer.default_model.as_deref(), Some("auto"));
    for trust in [None, Some(true), Some(false)] {
        let policy = agent(None, trust).get_preset_options().permission_policy;
        assert!(offer.permissions.contains(&policy.unwrap()));
    }
    assert_eq!(
        offer.permissions,
        vec![PermissionPolicy::Auto, PermissionPolicy::Supervised]
    );
}

#[test]
fn availability_follows_the_program() {
    let executor = agent(None, None);
    assert_eq!(executor.program(), "kiro-cli");
    assert_eq!(
        executor.get_availability_info(true),
        AvailabilityInfo::InstallationFound
    );
    assert_eq!(
        executor.get_availability_info(false),
        AvailabilityInfo::NotFound
    );
}

#[test]
fn the_tool_servers_are_listed_under_the_home_directory() {
    assert_eq!(
        agent(None, None).mcp_config_components(),
        strings(&[".kiro", "settings", "mcp.json"])
    );
}

#[test]
fn approvals_are_kept_and_do_not_count_for_equality() {
    let plain = agent(Some("m"), None);
    let mut approved = agent(Some("m"), None);
    assert!(approved.approvals.is_none());
    approved.use_approvals(Arc::new(AlwaysYes));
    assert!(approved.approvals.is_some());
    assert!(approved == plain);
    assert!(approved != agent(Some("n"), None));
    assert!(approved != agent(Some("m"), Some(true)));
    let mut other = agent(Some("m"), None);
    other.cmd.env = Some(vec![("A".to_string(), "1".to_string())]);
    assert!(other != plain);
    let mut turned = agent(Some("m"), None);
    let mut twisted = agent(Some("m"), None);
    turned.cmd.env = Some(vec![
        ("A".to_string(), "1".to_string()),
        ("B".to_string(), "2".to_string()),
    ]);
    twisted.cmd.env = Some(vec![
        ("B".to_string(), "2".to_string()),
        ("A".to_string(), "1".to_string()),
    ]);
    assert!(turned == twisted);
    let mut other = agent(Some("m"), None);
    other.append_prompt = AppendPrompt(Some(String::new()));
    assert!(other != plain);
}
