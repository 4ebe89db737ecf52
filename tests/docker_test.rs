use pixi_docker::{build_arguments, classify_run_args, run_arguments, Config, DockerConfig};

fn strings(v: &[&str]) -> Vec<String> {
    v.iter().map(|s| s.to_string()).collect()
}

fn config(ports: Vec<u16>) -> Config {
    Config {
        docker: DockerConfig {
            environment: "prod".to_string(),
            ports,
            entrypoint: None,
            copy_files: vec![],
            image_name: None,
            image_tag: None,
            pixi_version: None,
            build_command: None,
            multi_stage: true,
            base_image: None,
            template_path: None,
        },
        environments: vec![],
    }
}

#[test]
fn classify_options_then_command() {
    let tokens = strings(&[
        "-p", "8080:8080", "--name", "myapp", "-v", "/tmp:/tmp", "python", "-c", "print('test')",
    ]);
    let (options, command) = classify_run_args(&tokens);
    assert_eq!(options, strings(&["-p", "8080:8080", "--name", "myapp", "-v", "/tmp:/tmp"]));
    assert_eq!(command, strings(&["python", "-c", "print('test')"]));
}

#[test]
fn classify_value_that_looks_like_a_flag() {
    let (options, command) = classify_run_args(&strings(&["-e", "-x", "--rm", "sh"]));
    assert_eq!(options, strings(&["-e", "-x", "--rm"]));
    assert_eq!(command, strings(&["sh"]));
}

#[test]
fn classify_embedded_value_needs_no_next_token() {
    let (options, command) = classify_run_args(&strings(&["--name=app", "bash", "-l"]));
    assert_eq!(options, strings(&["--name=app"]));
    assert_eq!(command, strings(&["bash", "-l"]));
}

#[test]
fn classify_trailing_value_flag_stands_alone() {
    let (options, command) = classify_run_args(&strings(&["-it", "--name"]));
    assert_eq!(options, strings(&["-it", "--name"]));
    assert!(command.is_empty());
}

#[test]
fn run_without_tokens_publishes_ports() {
    let args = run_arguments(&config(vec![8080, 9000]), "prod", "app:1", &vec![]);
    assert_eq!(args, strings(&["run", "-p", "8080:8080", "-p", "9000:9000", "-it", "app:1"]));
}

#[test]
fn run_places_options_before_image() {
    let tokens = strings(&["-it", "--rm", "/bin/bash"]);
    let args = run_arguments(&config(vec![3000]), "dev", "test-args-app:0.1.0", &tokens);
    assert_eq!(args, strings(&["run", "-it", "--rm", "test-args-app:0.1.0", "/bin/bash"]));
}

#[test]
fn build_arguments_in_order() {
    let args = build_arguments("img:v1", "Dockerfile.prod", &strings(&["--no-cache"]));
    assert_eq!(
        args,
        strings(&["build", "-t", "img:v1", "-f", "Dockerfile.prod", "--no-cache", "."])
    );
}

#[test]
fn run_publishes_smallest_and_largest_ports() {
    let args = run_arguments(&config(vec![0, 7, 10, 65535]), "prod", "app", &vec![]);
    assert_eq!(
        args,
        strings(&[
            "run", "-p", "0:0", "-p", "7:7", "-p", "10:10", "-p", "65535:65535", "-it", "app"
        ])
    );
}
