use npm_rs::Invocation;
use npm_rs::NodeEnv;
use npm_rs::Npm;
use npm_rs::NpmEnv;

fn command_of(npm: Npm) -> String {
    npm.exec().command
}

#[test]
fn empty_builder_invokes_shell_with_empty_command() {
    let inv: Invocation = Npm::default().exec();
    assert_eq!(inv.command, "");
    assert_eq!(inv.program, "bash");
    assert_eq!(inv.flag, "-c");
    assert_eq!(inv.working_dir, None);
    assert!(!inv.env_cleared);
    assert!(inv.env_vars.is_empty());
}

#[test]
fn install_without_args_installs_from_manifest() {
    assert_eq!(command_of(Npm::default().install(None)), "npm install");
}

#[test]
fn install_with_empty_list_equals_install_without_args() {
    assert_eq!(command_of(Npm::default().install(Some(&[]))), "npm install");
}

#[test]
fn install_with_args_names_the_packages() {
    assert_eq!(
        command_of(Npm::default().install(Some(&["a", "b"]))),
        "npm install a b"
    );
}

#[test]
fn uninstall_names_the_packages() {
    assert_eq!(command_of(Npm::default().uninstall(&["x"])), "npm uninstall x");
}

#[test]
fn update_without_args_updates_everything() {
    assert_eq!(command_of(Npm::default().update(None)), "npm update");
}

#[test]
fn update_with_args_names_the_packages() {
    assert_eq!(
        command_of(Npm::default().update(Some(&["left-pad"]))),
        "npm update left-pad"
    );
}

#[test]
fn run_invokes_the_named_script() {
    assert_eq!(command_of(Npm::default().run("build")), "npm run build");
}

#[test]
fn custom_without_args_is_bare_subcommand() {
    assert_eq!(command_of(Npm::default().custom("audit", None)), "npm audit");
}

#[test]
fn custom_with_args_appends_them() {
    assert_eq!(
        command_of(Npm::default().custom("audit", Some(&["fix", "--force"]))),
        "npm audit fix --force"
    );
}

#[test]
fn init_creates_default_manifest() {
    assert_eq!(command_of(Npm::default().init()), "npm init -y");
}

#[test]
fn chained_fragments_join_with_logical_and() {
    assert_eq!(
        command_of(Npm::default().install(None).run("build")),
        "npm install && npm run build"
    );
}

#[test]
fn fragments_keep_call_order() {
    let npm = Npm::default()
        .init()
        .install(Some(&["tailwindcss"]))
        .run("build")
        .custom("audit", None);
    assert_eq!(
        command_of(npm),
        "npm init -y && npm install tailwindcss && npm run build && npm audit"
    );
}

#[test]
fn env_vars_are_recorded_in_order() {
    let inv = NpmEnv::default()
        .with_env("FOO", "bar")
        .with_env("BAZ", "qux")
        .init_env()
        .exec();
    assert_eq!(
        inv.env_vars,
        vec![
            ("FOO".to_string(), "bar".to_string()),
            ("BAZ".to_string(), "qux".to_string())
        ]
    );
    assert!(!inv.env_cleared);
}

#[test]
fn with_envs_applies_pairs_in_order() {
    let pairs = vec![
        ("A".to_string(), "1".to_string()),
        ("B".to_string(), "2".to_string()),
        ("A".to_string(), "3".to_string()),
    ];
    let inv = NpmEnv::default().with_envs(pairs.clone()).init_env().exec();
    assert_eq!(inv.env_vars, pairs);
}

#[test]
fn set_then_remove_leaves_variable_absent() {
    let inv = NpmEnv::default()
        .with_env("KEEP", "1")
        .with_env("FOO", "bar")
        .remove_env("FOO")
        .init_env()
        .exec();
    assert!(inv.env_vars.iter().all(|(k, _)| k != "FOO"));
    assert_eq!(inv.env_vars, vec![("KEEP".to_string(), "1".to_string())]);
}

#[test]
fn remove_drops_every_write_for_the_key() {
    let inv = NpmEnv::default()
        .with_env("FOO", "bar")
        .with_env("FOO", "baz")
        .remove_env("FOO")
        .init_env()
        .exec();
    assert!(inv.env_vars.is_empty());
}

#[test]
fn remove_of_absent_key_is_noop() {
    let inv = NpmEnv::default()
        .with_env("FOO", "bar")
        .remove_env("MISSING")
        .init_env()
        .exec();
    assert_eq!(inv.env_vars, vec![("FOO".to_string(), "bar".to_string())]);
}

#[test]
fn clear_then_set_leaves_exactly_one_variable() {
    let inv = NpmEnv::default()
        .with_env("OLD", "1")
        .clear_envs()
        .with_env("ONLY", "one")
        .init_env()
        .exec();
    assert!(inv.env_cleared);
    assert_eq!(inv.env_vars, vec![("ONLY".to_string(), "one".to_string())]);
}

#[test]
fn node_env_development_by_default() {
    assert!(matches!(NodeEnv::default(), NodeEnv::Development));
    let inv = NpmEnv::default()
        .with_node_env(&NodeEnv::default())
        .init_env()
        .exec();
    assert_eq!(
        inv.env_vars,
        vec![("NODE_ENV".to_string(), "development".to_string())]
    );
}

#[test]
fn node_env_production_and_custom_values() {
    let inv = NpmEnv::default()
        .with_node_env(&NodeEnv::Production)
        .init_env()
        .exec();
    assert_eq!(
        inv.env_vars,
        vec![("NODE_ENV".to_string(), "production".to_string())]
    );
    let inv = NpmEnv::default()
        .with_node_env(&NodeEnv::Custom("staging".to_string()))
        .init_env()
        .exec();
    assert_eq!(
        inv.env_vars,
        vec![("NODE_ENV".to_string(), "staging".to_string())]
    );
}

#[test]
fn node_env_from_cargo_profile_classifies() {
    assert!(matches!(
        NodeEnv::from_cargo_profile("debug"),
        NodeEnv::Development
    ));
    assert!(matches!(
        NodeEnv::from_cargo_profile("release"),
        NodeEnv::Production
    ));
    match NodeEnv::from_cargo_profile("bench") {
        NodeEnv::Custom(p) => assert_eq!(p, "bench"),
        _ => panic!("expected a custom profile"),
    }
}

#[test]
fn set_path_overrides_working_directory() {
    let inv = NpmEnv::new("bash", "-c")
        .set_path("/tmp/project")
        .init_env()
        .exec();
    assert_eq!(inv.working_dir, Some("/tmp/project".to_string()));
}

#[test]
fn new_takes_shell_and_flag() {
    let inv = NpmEnv::new("cmd.exe", "/C").init_env().run("build").exec();
    assert_eq!(inv.program, "cmd.exe");
    assert_eq!(inv.flag, "/C");
    assert_eq!(inv.command, "npm run build");
}

#[test]
fn clone_preserves_the_configuration() {
    let env = NpmEnv::default()
        .with_env("FOO", "bar")
        .set_path("/srv")
        .clear_envs()
        .with_env("A", "1");
    let a = env.clone().init_env().exec();
    let b = env.init_env().exec();
    assert_eq!(a.program, b.program);
    assert_eq!(a.flag, b.flag);
    assert_eq!(a.working_dir, b.working_dir);
    assert_eq!(a.env_cleared, b.env_cleared);
    assert_eq!(a.env_vars, b.env_vars);
}

#[test]
fn environment_is_kept_through_command_building() {
    let inv = NpmEnv::default()
        .clear_envs()
        .with_env("NODE_ENV", "production")
        .set_path("/srv/app")
        .init_env()
        .install(None)
        .run("build")
        .exec();
    assert!(inv.env_cleared);
    assert_eq!(
        inv.env_vars,
        vec![("NODE_ENV".to_string(), "production".to_string())]
    );
    assert_eq!(inv.working_dir, Some("/srv/app".to_string()));
    assert_eq!(inv.command, "npm install && npm run build");
}
