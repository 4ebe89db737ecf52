use vstd::prelude::*;
use crate::text::{distinct_keys, keys_unique};

verus! {

/// The whole configuration document: the global Docker settings and the
/// named environment overlays, each key naming one environment.
#[derive(Debug, Clone)]
pub struct Config {
    pub docker: DockerConfig,
    pub environments: Vec<(String, EnvironmentConfig)>,
}

/// Project-wide defaults for Dockerfile generation.
#[derive(Debug, Clone)]
pub struct DockerConfig {
    /// The environment generated when none is selected.
    pub environment: String,
    pub ports: Vec<u16>,
    pub entrypoint: Option<String>,
    pub copy_files: Vec<String>,
    pub image_name: Option<String>,
    pub image_tag: Option<String>,
    pub pixi_version: Option<String>,
    pub build_command: Option<String>,
    pub multi_stage: bool,
    pub base_image: Option<String>,
    pub template_path: Option<String>,
}

/// A partial override of the global settings for one environment. Empty
/// lists and `None` mean "not overridden"; `multi_stage` is unset, true or
/// false.
#[derive(Debug, Clone)]
pub struct EnvironmentConfig {
    pub ports: Vec<u16>,
    pub entrypoint: Option<String>,
    pub copy_files: Vec<String>,
    pub build_command: Option<String>,
    pub multi_stage: Option<bool>,
    pub base_image: Option<String>,
}

/// The value of `multi_stage` when the document does not give one.
pub fn default_multi_stage() -> (r: bool)
    ensures
        r,
{
    true
}

impl EnvironmentConfig {
    /// An overlay that overrides nothing.
    pub fn empty() -> (r: EnvironmentConfig)
        ensures
            r.ports@.len() == 0,
            r.entrypoint is None,
            r.copy_files@.len() == 0,
            r.build_command is None,
            r.multi_stage is None,
            r.base_image is None,
    {
        EnvironmentConfig {
            ports: Vec::new(),
            entrypoint: None,
            copy_files: Vec::new(),
            build_command: None,
            multi_stage: None,
            base_image: None,
        }
    }
}

/// The overlay stored under `name`: the first entry with that key.
pub open spec fn overlay_for(
    environments: Seq<(String, EnvironmentConfig)>,
    name: Seq<char>,
) -> Option<EnvironmentConfig>
    decreases environments.len(),
{
    if environments.len() == 0 {
        None
    } else if environments[0].0@ == name {
        Some(environments[0].1)
    } else {
        overlay_for(environments.drop_first(), name)
    }
}

impl Config {
    /// Each environment has at most one overlay.
    pub open spec fn wf(self) -> bool {
        keys_unique(self.environments@)
    }

    /// Whether each environment has at most one overlay.
    pub fn is_well_formed(&self) -> (r: bool)
        ensures
            r == self.wf(),
    {
        distinct_keys(&self.environments)
    }

    /// Looks up the overlay of the environment `name`.
    pub fn overlay(&self, name: &str) -> (r: Option<&EnvironmentConfig>)
        requires
            self.wf(),
        ensures
            match r {
                Some(o) => overlay_for(self.environments@, name@) == Some(*o),
                None => overlay_for(self.environments@, name@) is None,
            },
    {
        let n = self.environments.len();
        let mut i: usize = 0;
        assert(self.environments@.subrange(0, n as int) =~= self.environments@);
        while i < n
            invariant
                n == self.environments@.len(),
                i <= n,
                overlay_for(self.environments@, name@) == overlay_for(
                    self.environments@.subrange(i as int, n as int),
                    name@,
                ),
            decreases n - i,
        {
            let entry = &self.environments[i];
            let ghost rest = self.environments@.subrange(i as int, n as int);
            assert(rest.drop_first() =~= self.environments@.subrange(i + 1, n as int));
            if crate::text::same_text(entry.0.as_str(), name) {
                return Some(&entry.1);
            }
            i = i + 1;
        }
        None
    }
}

} // verus!
