use pixi_docker::{
    resolve, resolve_image_reference, resolve_image_tag, translate_entrypoint, Config,
    DockerConfig, EnvironmentConfig, PixiToml, TaskValue, WorkspaceConfig,
};

fn global() -> DockerConfig {
    DockerConfig {
        environment: "prod".to_string(),
        ports: vec![8080],
        entrypoint: Some("serve".to_string()),
        copy_files: vec!["app/".to_string()],
        image_name: None,
        image_tag: None,
        pixi_version: Some("0.40.0".to_string()),
        build_command: Some("build".to_string()),
        multi_stage: true,
        base_image: Some("ubuntu:24.04".to_string()),
        template_path: None,
    }
}

fn workspace(name: &str, version: &str) -> PixiToml {
    PixiToml {
        workspace: Some(WorkspaceConfig {
            name: Some(name.to_string()),
            version: Some(version.to_string()),
        }),
        project: None,
        tasks: vec![],
    }
}

#[test]
fn unknown_environment_yields_global_settings() {
    let config = Config { docker: global(), environments: vec![] };
    let s = resolve(&config, "staging");
    assert_eq!(s.ports, vec![8080]);
    assert_eq!(s.entrypoint, Some("serve".to_string()));
    assert_eq!(s.copy_files, vec!["app/".to_string()]);
    assert_eq!(s.build_command, Some("build".to_string()));
    assert!(s.multi_stage);
    assert_eq!(s.base_image, Some("ubuntu:24.04".to_string()));
}

#[test]
fn overlay_ports_replace_global_ports() {
    let overlay = EnvironmentConfig { ports: vec![3000, 3001], ..EnvironmentConfig::empty() };
    let config = Config { docker: global(), environments: vec![("dev".to_string(), overlay)] };
    let s = resolve(&config, "dev");
    assert_eq!(s.ports, vec![3000, 3001]);
    assert_eq!(s.copy_files, vec!["app/".to_string()]);
    assert_eq!(s.entrypoint, Some("serve".to_string()));
}

#[test]
fn empty_overlay_lists_do_not_override() {
    let overlay = EnvironmentConfig {
        build_command: Some("test-build".to_string()),
        ..EnvironmentConfig::empty()
    };
    let config = Config { docker: global(), environments: vec![("test".to_string(), overlay)] };
    let s = resolve(&config, "test");
    assert_eq!(s.ports, vec![8080]);
    assert_eq!(s.build_command, Some("test-build".to_string()));
}

#[test]
fn multi_stage_unset_inherits_and_false_overrides() {
    let unset = EnvironmentConfig::empty();
    let off = EnvironmentConfig { multi_stage: Some(false), ..EnvironmentConfig::empty() };
    let config = Config {
        docker: global(),
        environments: vec![("a".to_string(), unset), ("b".to_string(), off)],
    };
    assert!(resolve(&config, "a").multi_stage);
    assert!(!resolve(&config, "b").multi_stage);
}

#[test]
fn translate_without_metadata_keeps_entrypoint() {
    assert_eq!(translate_entrypoint(&Some("serve".to_string()), &None), "serve");
    assert_eq!(translate_entrypoint(&None, &None), "");
}

#[test]
fn translate_through_task_table() {
    let mut meta = workspace("app", "1.0.0");
    meta.tasks = vec![("serve".to_string(), TaskValue::Simple("python app.py".to_string()))];
    let meta = Some(meta);
    assert_eq!(translate_entrypoint(&Some("serve".to_string()), &meta), "python app.py");
    assert_eq!(translate_entrypoint(&Some("ls -la".to_string()), &meta), "ls -la");
}

#[test]
fn image_reference_falls_back_to_defaults() {
    let config = Config { docker: global(), environments: vec![] };
    assert_eq!(resolve_image_tag(&config, "staging", None, &None), "pixi-app:staging");
}

#[test]
fn image_reference_from_metadata() {
    let config = Config { docker: global(), environments: vec![] };
    let meta = Some(workspace("my-awesome-app", "2.1.0"));
    assert_eq!(resolve_image_tag(&config, "prod", None, &meta), "my-awesome-app:2.1.0");
}

#[test]
fn cli_tag_is_taken_verbatim() {
    let config = Config { docker: global(), environments: vec![] };
    let meta = Some(workspace("my-awesome-app", "2.1.0"));
    let tag = resolve_image_tag(&config, "prod", Some("test-image:v1.0".to_string()), &meta);
    assert_eq!(tag, "test-image:v1.0");
}

#[test]
fn configured_image_wins_over_metadata() {
    let mut docker = global();
    docker.image_name = Some("configured".to_string());
    docker.image_tag = Some("7".to_string());
    let meta = Some(workspace("my-awesome-app", "2.1.0"));
    let r = resolve_image_reference(&docker, "prod", &None, &None, &meta);
    assert_eq!(r.full_name(), "configured:7");
    let r = resolve_image_reference(
        &docker,
        "prod",
        &Some("cli".to_string()),
        &Some("x".to_string()),
        &meta,
    );
    assert_eq!(r.name, "cli");
    assert_eq!(r.tag, "x");
}
