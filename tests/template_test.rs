use pixi_docker::{
    dockerfile_name, Config, DockerConfig, DockerfileGenerator, EnvironmentConfig,
    GenerateError, PixiToml, TaskValue,
};

fn create_test_config() -> Config {
    let environments = vec![(
        "dev".to_string(),
        EnvironmentConfig {
            ports: vec![3000],
            entrypoint: Some("dev".to_string()),
            copy_files: vec!["src/".to_string(), "tests/".to_string()],
            build_command: None,
            multi_stage: Some(false),
            base_image: None,
        },
    )];

    Config {
        docker: DockerConfig {
            environment: "prod".to_string(),
            ports: vec![8080],
            entrypoint: Some("serve".to_string()),
            copy_files: vec!["app/".to_string()],
            image_name: None,
            image_tag: None,
            pixi_version: Some("0.40.0".to_string()),
            build_command: Some("build".to_string()),
            multi_stage: true,
            base_image: Some("ubuntu:24.04".to_string()),
            template_path: None,
        },
        environments,
    }
}

#[test]
fn test_generator_creation() {
    let generator = DockerfileGenerator::new();
    assert!(!generator.template_content.is_empty());
}

#[test]
fn template_test_generate_default_environment() {
    let config = create_test_config();
    let generator = DockerfileGenerator::new();

    let result = generator.generate(&config, None, &None).unwrap();

    assert!(result.contains("FROM ghcr.io/prefix-dev/pixi:0.40.0"));
    assert!(result.contains("prod"));
    assert!(result.contains("EXPOSE 8080"));
    assert!(result.contains("CMD [\"/bin/bash\", \"-c\", \"serve\"]"));
    assert!(result.contains("ubuntu:24.04"));
    assert!(result.contains("pixi run --locked build"));
}

#[test]
fn template_test_generate_specific_environment() {
    let config = create_test_config();
    let generator = DockerfileGenerator::new();

    let result = generator.generate(&config, Some("dev"), &None).unwrap();

    assert!(result.contains("dev"));
    assert!(result.contains("EXPOSE 3000"));
    assert!(result.contains("CMD [\"/bin/bash\", \"-c\", \"dev\"]"));
    assert!(!result.contains("FROM ubuntu:24.04 AS production"));
}

#[test]
fn test_generate_all_environments() {
    let config = create_test_config();
    let generator = DockerfileGenerator::new();

    let dockerfiles = generator.generate_all(&config, &None).unwrap();

    assert_eq!(dockerfiles.len(), 2);

    let filenames: Vec<_> = dockerfiles.iter().map(|(name, _)| name).collect();
    assert!(filenames.contains(&&"Dockerfile.prod".to_string()));
    assert!(filenames.contains(&&"Dockerfile.dev".to_string()));
}

#[test]
fn generate_all_puts_default_first_and_skips_its_overlay() {
    let mut config = create_test_config();
    config.environments.push(("prod".to_string(), EnvironmentConfig::empty()));
    let dockerfiles = DockerfileGenerator::new().generate_all(&config, &None).unwrap();
    let names: Vec<&str> = dockerfiles.iter().map(|(n, _)| n.as_str()).collect();
    assert_eq!(names, vec!["Dockerfile.prod", "Dockerfile.dev"]);
}

#[test]
fn test_environment_config_overrides() {
    let config = create_test_config();
    let generator = DockerfileGenerator::new();

    let result = generator.generate(&config, Some("dev"), &None).unwrap();
    assert!(result.contains("EXPOSE 3000"));
    assert!(!result.contains("EXPOSE 8080"));
}

#[test]
fn test_fallback_to_default_values() {
    let mut config = create_test_config();
    config.docker.entrypoint = None;

    let generator = DockerfileGenerator::new();
    let result = generator.generate(&config, None, &None).unwrap();

    assert!(result.contains("CMD [\"/bin/bash\"]"));
}

#[test]
fn test_custom_template_path() {
    let test_template = "FROM test:latest\nWORKDIR /test\n";

    let generator = DockerfileGenerator {
        template_content: test_template.to_string(),
    };

    let config = create_test_config();
    let _result = generator.generate(&config, None, &None).unwrap();

    assert!(generator.template_content.contains("FROM test:latest"));
}

#[test]
fn entrypoint_is_translated_through_metadata() {
    let config = create_test_config();
    let meta = Some(PixiToml {
        workspace: None,
        project: None,
        tasks: vec![("serve".to_string(), TaskValue::Simple("python app.py".to_string()))],
    });
    let result = DockerfileGenerator::new().generate(&config, None, &meta).unwrap();
    assert!(result.contains("CMD [\"/bin/bash\", \"-c\", \"python app.py\"]"));
}

#[test]
fn missing_template_text_falls_back_to_builtin() {
    let g = DockerfileGenerator::with_template(None);
    assert_eq!(g.template_content, DockerfileGenerator::default_template());
    let g = DockerfileGenerator::with_template(Some("X".to_string()));
    assert_eq!(g.template_content, "X");
}

#[test]
fn broken_template_is_a_render_error() {
    let generator = DockerfileGenerator::with_template(Some("{% if %}".to_string()));
    let result = generator.generate(&create_test_config(), None, &None);
    assert!(matches!(result, Err(GenerateError::TemplateRender(_))));
    let all = generator.generate_all(&create_test_config(), &None);
    assert!(all.is_err());
}

#[test]
fn custom_template_sees_context_values() {
    let generator = DockerfileGenerator::with_template(Some(
        "{{ environment }}|{{ ports }}|{{ multi_stage }}|{{ entrypoint }}".to_string(),
    ));
    let result = generator.generate(&create_test_config(), Some("dev"), &None).unwrap();
    assert_eq!(result, "dev|[3000]|False|dev");
}

#[test]
fn dockerfile_names_follow_environment() {
    assert_eq!(dockerfile_name("staging"), "Dockerfile.staging");
}

#[test]
fn builtin_template_starts_with_base_stage() {
    let result = DockerfileGenerator::new().generate(&create_test_config(), None, &None).unwrap();
    assert!(result.starts_with("FROM ghcr.io/prefix-dev/pixi:0.40.0 AS build"));
    assert!(result.contains("FROM ubuntu:24.04 AS production"));
    assert!(result.contains("COPY app/ ./app/"));
}
