use kiro_executor::command::{
    apply_overrides, same_overrides, CmdOverrides, CommandBuildError, CommandBuilder, CommandParts,
    ExecutionEnv,
};

fn strings(list: &[&str]) -> Vec<String> {
    list.iter().map(|s| s.to_string()).collect()
}

#[test]
fn a_command_is_its_base_its_parameters_and_the_rest() {
    let builder = CommandBuilder::new("npx -y \"some tool\"")
        .extend_params(strings(&["--a b"]))
        .extend_params(strings(&["--c"]));
    assert_eq!(
        builder.build_initial(),
        Ok(CommandParts {
            program: "npx".to_string(),
            args: strings(&["-y", "some tool", "--a b", "--c"]),
        })
    );
    assert_eq!(
        builder.build_follow_up(&strings(&["--resume", "x y"])),
        Ok(CommandParts {
            program: "npx".to_string(),
            args: strings(&["-y", "some tool", "--a b", "--c", "--resume", "x y"]),
        })
    );
}

#[test]
fn a_base_of_blanks_leaves_the_parameters() {
    assert_eq!(
        CommandBuilder::new("  ").build_initial(),
        Err(CommandBuildError::EmptyCommand)
    );
    assert_eq!(
        CommandBuilder::new("  ")
            .extend_params(strings(&["run"]))
            .build_initial(),
        Ok(CommandParts {
            program: "run".to_string(),
            args: vec![],
        })
    );
    assert_eq!(
        CommandBuilder::new("a \\").build_initial(),
        Err(CommandBuildError::InvalidBase("a \\".to_string()))
    );
}

#[test]
fn overrides_replace_the_base_and_add_parameters() {
    let builder = CommandBuilder::new("kiro-cli chat").extend_params(strings(&["-x"]));
    assert_eq!(
        apply_overrides(builder.clone(), &CmdOverrides::default()),
        Ok(builder.clone())
    );
    let overrides = CmdOverrides {
        base_command_override: Some("other".to_string()),
        additional_params: Some(strings(&["-a", "b c", "\"d e\""])),
        env: None,
    };
    assert_eq!(
        apply_overrides(builder.clone(), &overrides),
        Ok(CommandBuilder {
            base: "other".to_string(),
            params: strings(&["-x", "-a", "b", "c", "d e"]),
        })
    );
    let broken = CmdOverrides {
        base_command_override: None,
        additional_params: Some(strings(&["-a", "'"])),
        env: None,
    };
    assert_eq!(
        apply_overrides(builder, &broken),
        Err(CommandBuildError::InvalidShellParams("-a '".to_string()))
    );
}

#[test]
fn variables_of_the_profile_come_last() {
    let pair = |k: &str, v: &str| (k.to_string(), v.to_string());
    let env = ExecutionEnv {
        vars: vec![pair("A", "1")],
    };
    let mut cmd = CmdOverrides::default();
    assert_eq!(env.with_profile(&cmd), env);
    cmd.env = Some(vec![pair("B", "2"), pair("A", "3")]);
    assert_eq!(
        env.with_profile(&cmd).vars,
        vec![pair("A", "1"), pair("B", "2"), pair("A", "3")]
    );
}

#[test]
fn profiles_are_compared_by_all_they_say() {
    let base = CmdOverrides::default();
    assert!(same_overrides(&base, &CmdOverrides::default()));
    let mut other = CmdOverrides::default();
    other.base_command_override = Some("x".to_string());
    assert!(!same_overrides(&base, &other));
    let mut other = CmdOverrides::default();
    other.additional_params = Some(vec![]);
    assert!(!same_overrides(&base, &other));
    let mut longer = other.clone();
    longer.additional_params = Some(strings(&["a"]));
    assert!(!same_overrides(&longer, &other));
    assert!(same_overrides(&longer, &longer.clone()));
    let mut with_env = CmdOverrides::default();
    with_env.env = Some(vec![("A".to_string(), "1".to_string())]);
    let mut changed = with_env.clone();
    assert!(same_overrides(&with_env, &changed));
    changed.env = Some(vec![("A".to_string(), "2".to_string())]);
    assert!(!same_overrides(&with_env, &changed));
}

#[test]
fn the_order_of_variables_does_not_count_for_equality() {
    let pair = |k: &str, v: &str| (k.to_string(), v.to_string());
    let with = |vars: Vec<(String, String)>| CmdOverrides {
        base_command_override: None,
        additional_params: None,
        env: Some(vars),
    };
    let one = with(vec![pair("A", "1"), pair("B", "2")]);
    assert!(one == with(vec![pair("B", "2"), pair("A", "1")]));
    assert!(one == with(vec![pair("A", "0"), pair("B", "2"), pair("A", "1")]));
    assert!(one != with(vec![pair("A", "1"), pair("B", "2"), pair("A", "0")]));
    assert!(one != with(vec![pair("A", "1")]));
    assert!(with(vec![pair("A", "1")]) != one);
    assert!(with(vec![]) != CmdOverrides::default());

    let env = |vars: Vec<(String, String)>| ExecutionEnv { vars };
    assert!(
        env(vec![pair("A", "1"), pair("B", "2")]) == env(vec![pair("B", "2"), pair("A", "1")])
    );
    assert!(env(vec![pair("A", "1")]) != env(vec![pair("A", "2")]));
}
