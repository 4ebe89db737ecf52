use vstd::prelude::*;
use crate::config::{overlay_for, Config, DockerConfig, EnvironmentConfig};
use crate::pixi::{task_command_of, PixiToml};
use crate::text::{all_chars, copy_opt, copy_ports, copy_strings, opt_chars};

verus! {

/// The settings that one generation uses, after merging the global
/// settings with the overlay of the selected environment.
#[derive(Debug, Clone)]
pub struct EffectiveSettings {
    pub ports: Vec<u16>,
    pub entrypoint: Option<String>,
    pub copy_files: Vec<String>,
    pub build_command: Option<String>,
    pub multi_stage: bool,
    pub base_image: Option<String>,
}

/// What effective settings hold, as plain values.
pub struct SettingsView {
    pub ports: Seq<u16>,
    pub entrypoint: Option<Seq<char>>,
    pub copy_files: Seq<Seq<char>>,
    pub build_command: Option<Seq<char>>,
    pub multi_stage: bool,
    pub base_image: Option<Seq<char>>,
}

impl View for EffectiveSettings {
    type V = SettingsView;

    open spec fn view(&self) -> SettingsView {
        SettingsView {
            ports: self.ports@,
            entrypoint: opt_chars(self.entrypoint),
            copy_files: all_chars(self.copy_files@),
            build_command: opt_chars(self.build_command),
            multi_stage: self.multi_stage,
            base_image: opt_chars(self.base_image),
        }
    }
}

/// The global settings, unchanged by any overlay.
pub open spec fn global_settings(g: DockerConfig) -> SettingsView {
    SettingsView {
        ports: g.ports@,
        entrypoint: opt_chars(g.entrypoint),
        copy_files: all_chars(g.copy_files@),
        build_command: opt_chars(g.build_command),
        multi_stage: g.multi_stage,
        base_image: opt_chars(g.base_image),
    }
}

/// A non-empty overlay list wins over the base list.
pub open spec fn pick_list<T>(over: Seq<T>, base: Seq<T>) -> Seq<T> {
    if over.len() > 0 {
        over
    } else {
        base
    }
}

/// A present overlay value wins over the base value.
pub open spec fn pick_opt<T>(over: Option<T>, base: Option<T>) -> Option<T> {
    if over is Some {
        over
    } else {
        base
    }
}

/// The global settings with each field that the overlay sets replaced.
pub open spec fn merge(g: DockerConfig, o: EnvironmentConfig) -> SettingsView {
    SettingsView {
        ports: pick_list(o.ports@, g.ports@),
        entrypoint: opt_chars(pick_opt(o.entrypoint, g.entrypoint)),
        copy_files: all_chars(pick_list(o.copy_files@, g.copy_files@)),
        build_command: opt_chars(pick_opt(o.build_command, g.build_command)),
        multi_stage: match o.multi_stage {
            Some(b) => b,
            None => g.multi_stage,
        },
        base_image: opt_chars(pick_opt(o.base_image, g.base_image)),
    }
}

/// The effective settings of the environment `name`.
pub open spec fn effective(config: Config, name: Seq<char>) -> SettingsView {
    match overlay_for(config.environments@, name) {
        Some(o) => merge(config.docker, o),
        None => global_settings(config.docker),
    }
}

fn list_or(over: &Vec<String>, base: &Vec<String>) -> (r: Vec<String>)
    ensures
        r@ == pick_list(over@, base@),
{
    if over.len() > 0 {
        copy_strings(over)
    } else {
        copy_strings(base)
    }
}

fn opt_or(over: &Option<String>, base: &Option<String>) -> (r: Option<String>)
    ensures
        r == pick_opt(*over, *base),
{
    if over.is_some() {
        copy_opt(over)
    } else {
        copy_opt(base)
    }
}

/// Merges the global settings with the overlay of `environment`, if there is
/// one. Any name is accepted: an unknown one yields the global settings.
pub fn resolve(config: &Config, environment: &str) -> (r: EffectiveSettings)
    requires
        config.wf(),
    ensures
        r@ == effective(*config, environment@),
{
    let g = &config.docker;
    match config.overlay(environment) {
        None => EffectiveSettings {
            ports: copy_ports(&g.ports),
            entrypoint: copy_opt(&g.entrypoint),
            copy_files: copy_strings(&g.copy_files),
            build_command: copy_opt(&g.build_command),
            multi_stage: g.multi_stage,
            base_image: copy_opt(&g.base_image),
        },
        Some(o) => {
            let ports = if o.ports.len() > 0 {
                copy_ports(&o.ports)
            } else {
                copy_ports(&g.ports)
            };
            let multi_stage = match o.multi_stage {
                Some(b) => b,
                None => g.multi_stage,
            };
            EffectiveSettings {
                ports,
                entrypoint: opt_or(&o.entrypoint, &g.entrypoint),
                copy_files: list_or(&o.copy_files, &g.copy_files),
                build_command: opt_or(&o.build_command, &g.build_command),
                multi_stage,
                base_image: opt_or(&o.base_image, &g.base_image),
            }
        },
    }
}

/// The shell text that an entrypoint stands for: nothing without an
/// entrypoint, the task's command where the metadata declares such a task,
/// and the entrypoint itself otherwise.
pub open spec fn translated(entrypoint: Option<Seq<char>>, metadata: Option<PixiToml>) -> Seq<
    char,
> {
    match entrypoint {
        None => Seq::empty(),
        Some(e) => match metadata {
            Some(m) => match task_command_of(m.tasks@, e) {
                Some(c) => c@,
                None => e,
            },
            None => e,
        },
    }
}

/// Metadata, where there is any, is well formed.
pub open spec fn metadata_wf(metadata: Option<PixiToml>) -> bool {
    metadata matches Some(m) ==> m.wf()
}

/// Translates an entrypoint through the metadata's task table, falling back
/// to the entrypoint's own text.
pub fn translate_entrypoint(entrypoint: &Option<String>, metadata: &Option<PixiToml>) -> (r:
    String)
    requires
        metadata_wf(*metadata),
    ensures
        r@ == translated(opt_chars(*entrypoint), *metadata),
{
    match entrypoint {
        None => String::new(),
        Some(e) => {
            if let Some(m) = metadata {
                if let Some(cmd) = m.translate_task_to_shell(e.as_str()) {
                    return cmd;
                }
            }
            e.clone()
        },
    }
}

/// An image reference, written `name:tag`.
#[derive(Debug, Clone)]
pub struct ImageReference {
    pub name: String,
    pub tag: String,
}

impl ImageReference {
    /// The reference as `name:tag`.
    pub fn full_name(&self) -> (r: String)
        ensures
            r@ == self.name@ + ":"@ + self.tag@,
    {
        let s = self.name.clone().concat(":");
        s.concat(self.tag.as_str())
    }
}

/// The image name used when no source gives one.
pub open spec fn fallback_image_name() -> Seq<char> {
    "pixi-app"@
}

/// The first present value of a chain of optional strings.
pub open spec fn first_of(a: Option<String>, b: Option<String>, c: Option<String>, last: Seq<
    char,
>) -> Seq<char> {
    match pick_opt(a, pick_opt(b, c)) {
        Some(s) => s@,
        None => last,
    }
}

/// The metadata's name, where there is metadata.
pub open spec fn metadata_name(metadata: Option<PixiToml>) -> Option<String> {
    match metadata {
        Some(m) => m.spec_name(),
        None => None,
    }
}

/// The metadata's version, where there is metadata.
pub open spec fn metadata_version(metadata: Option<PixiToml>) -> Option<String> {
    match metadata {
        Some(m) => m.spec_version(),
        None => None,
    }
}

fn metadata_name_of(metadata: &Option<PixiToml>) -> (r: Option<String>)
    ensures
        r == metadata_name(*metadata),
{
    match metadata {
        Some(m) => match m.get_name() {
            Some(n) => Some(n.clone()),
            None => None,
        },
        None => None,
    }
}

fn metadata_version_of(metadata: &Option<PixiToml>) -> (r: Option<String>)
    ensures
        r == metadata_version(*metadata),
{
    match metadata {
        Some(m) => match m.get_version() {
            Some(v) => Some(v.clone()),
            None => None,
        },
        None => None,
    }
}

/// Resolves the image reference. The name comes from `cli_name`, else the
/// configured image name, else the metadata's name, else `pixi-app`; the tag
/// from `cli_tag`, else the configured image tag, else the metadata's
/// version, else the environment's name. `metadata` is `None` where the
/// metadata document is missing or could not be read.
pub fn resolve_image_reference(
    docker: &DockerConfig,
    environment: &str,
    cli_name: &Option<String>,
    cli_tag: &Option<String>,
    metadata: &Option<PixiToml>,
) -> (r: ImageReference)
    ensures
        r.name@ == first_of(
            *cli_name,
            docker.image_name,
            metadata_name(*metadata),
            fallback_image_name(),
        ),
        r.tag@ == first_of(
            *cli_tag,
            docker.image_tag,
            metadata_version(*metadata),
            environment@,
        ),
{
    let name = match opt_or(cli_name, &opt_or(&docker.image_name, &metadata_name_of(metadata))) {
        Some(n) => n,
        None => String::from_str("pixi-app"),
    };
    let tag = match opt_or(cli_tag, &opt_or(&docker.image_tag, &metadata_version_of(metadata))) {
        Some(t) => t,
        None => environment.to_owned(),
    };
    ImageReference { name, tag }
}

/// The image tag for a build or run: `cli_tag` verbatim where it is given,
/// else the resolved `name:tag` reference of `environment`.
pub fn resolve_image_tag(
    config: &Config,
    environment: &str,
    cli_tag: Option<String>,
    metadata: &Option<PixiToml>,
) -> (r: String)
    ensures
        match cli_tag {
            Some(t) => r@ == t@,
            None => r@ == first_of(
                None,
                config.docker.image_name,
                metadata_name(*metadata),
                fallback_image_name(),
            ) + ":"@ + first_of(
                None,
                config.docker.image_tag,
                metadata_version(*metadata),
                environment@,
            ),
        },
{
    match cli_tag {
        Some(t) => t,
        None => resolve_image_reference(&config.docker, environment, &None, &None, metadata).full_name(),
    }
}

/// With no overlay for the environment, the effective settings are the
/// global settings, field for field.
pub proof fn lemma_no_overlay_keeps_global(config: Config, name: Seq<char>)
    requires
        overlay_for(config.environments@, name) is None,
    ensures
        effective(config, name) == global_settings(config.docker),
{
}

/// An overlay with a non-empty port list decides the ports, whatever the
/// global ports are.
pub proof fn lemma_overlay_ports_win(config: Config, name: Seq<char>, o: EnvironmentConfig)
    requires
        overlay_for(config.environments@, name) == Some(o),
        o.ports@.len() > 0,
    ensures
        effective(config, name).ports == o.ports@,
{
}

/// An overlay that leaves the multi-stage flag unset inherits the global
/// flag; one that sets it decides it, `false` over a global `true` too.
pub proof fn lemma_multi_stage_override(config: Config, name: Seq<char>, o: EnvironmentConfig)
    requires
        overlay_for(config.environments@, name) == Some(o),
    ensures
        o.multi_stage is None ==> effective(config, name).multi_stage == config.docker.multi_stage,
        o.multi_stage == Some(false) ==> !effective(config, name).multi_stage,
        o.multi_stage == Some(true) ==> effective(config, name).multi_stage,
{
}

} // verus!
