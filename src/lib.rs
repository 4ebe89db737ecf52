//! Generation of environment-specific Dockerfiles from one declarative
//! configuration, with image-reference resolution and classification of
//! `docker run` arguments.

pub mod config;
pub mod docker;
pub mod pixi;
pub mod resolve;
pub mod template;
mod text;

pub use docker::{build_arguments, classify_run_args, run_arguments};
pub use config::{default_multi_stage, Config, DockerConfig, EnvironmentConfig};
pub use pixi::{PixiToml, ProjectConfig, TaskConfig, TaskValue, WorkspaceConfig};
pub use resolve::{
    resolve, resolve_image_reference, resolve_image_tag, translate_entrypoint, EffectiveSettings,
    ImageReference,
};
pub use template::{
    dockerfile_name, template_context, DockerfileGenerator, GenerateError, TemplateContext,
    DEFAULT_TEMPLATE,
};
