use vstd::prelude::*;
use minijinja::{Environment, Value};
use crate::config::Config;
use crate::pixi::PixiToml;
use crate::resolve::{effective, metadata_wf, resolve, translate_entrypoint, translated};
use crate::text::{all_chars, copy_opt, keys_unique, opt_chars};

verus! {

/// The template used when no other is given.
pub const DEFAULT_TEMPLATE: &'static str = r#"{% if multi_stage -%}
FROM ghcr.io/prefix-dev/pixi:{{ pixi_version or "latest" }} AS build

WORKDIR /app
COPY pixi.toml pixi.lock* ./
{%- for file in copy_files %}
COPY {{ file }} ./{{ file }}
{%- endfor %}
RUN pixi install --locked -e {{ environment }}
{%- if build_command %}
RUN pixi run --locked {{ build_command }}
{%- endif %}

FROM {{ base_image or "ubuntu:24.04" }} AS production

WORKDIR /app
COPY --from=build /app /app
ENV PATH="/app/.pixi/envs/{{ environment }}/bin:$PATH"
{%- else -%}
FROM ghcr.io/prefix-dev/pixi:{{ pixi_version or "latest" }}

WORKDIR /app
COPY pixi.toml pixi.lock* ./
{%- for file in copy_files %}
COPY {{ file }} ./{{ file }}
{%- endfor %}
RUN pixi install --locked -e {{ environment }}
{%- if build_command %}
RUN pixi run --locked {{ build_command }}
{%- endif %}
ENV PATH="/app/.pixi/envs/{{ environment }}/bin:$PATH"
{%- endif %}
{%- for port in ports %}
EXPOSE {{ port }}
{%- endfor %}
{%- if entrypoint %}
CMD ["/bin/bash", "-c", "{{ entrypoint }}"]
{%- else %}
CMD ["/bin/bash"]
{%- endif %}
"#;

#[verifier::external_type_specification]
#[verifier::external_body]
pub struct ExTemplateError(minijinja::Error);

/// Why a generation failed.
#[derive(Debug)]
pub enum GenerateError {
    /// The template engine rejected the template or the context.
    TemplateRender(minijinja::Error),
}

/// The values handed to the template, exactly these keys.
#[derive(Debug, Clone)]
pub struct TemplateContext {
    pub environment: String,
    pub ports: Vec<u16>,
    /// `None` where the translated entrypoint is empty.
    pub entrypoint: Option<String>,
    pub copy_files: Vec<String>,
    pub pixi_version: Option<String>,
    pub build_command: Option<String>,
    pub multi_stage: bool,
    pub base_image: Option<String>,
}

/// What a template context holds, as plain values.
pub struct TemplateContextView {
    pub environment: Seq<char>,
    pub ports: Seq<u16>,
    pub entrypoint: Option<Seq<char>>,
    pub copy_files: Seq<Seq<char>>,
    pub pixi_version: Option<Seq<char>>,
    pub build_command: Option<Seq<char>>,
    pub multi_stage: bool,
    pub base_image: Option<Seq<char>>,
}

impl View for TemplateContext {
    type V = TemplateContextView;

    open spec fn view(&self) -> TemplateContextView {
        TemplateContextView {
            environment: self.environment@,
            ports: self.ports@,
            entrypoint: opt_chars(self.entrypoint),
            copy_files: all_chars(self.copy_files@),
            pixi_version: opt_chars(self.pixi_version),
            build_command: opt_chars(self.build_command),
            multi_stage: self.multi_stage,
            base_image: opt_chars(self.base_image),
        }
    }
}

/// The text that the template engine renders from a template and a
/// context, or `None` where it fails on them.
pub uninterp spec fn rendered(template: Seq<char>, context: TemplateContextView) -> Option<
    Seq<char>,
>;

/// Relies on minijinja's `Environment::add_template`, `get_template` and
/// `Template::render`: rendering depends on the template and the context
/// alone, and fails where the template does not parse or render.
#[verifier::external_body]
fn render(template: &str, ctx: &TemplateContext) -> (r: Result<String, minijinja::Error>)
    ensures
        match r {
            Ok(s) => rendered(template@, ctx@) == Some(s@),
            Err(_) => rendered(template@, ctx@) is None,
        },
{
    let mut env = Environment::new();
    env.add_template("dockerfile", template)?;
    let context = Value::from_iter([
        ("environment", Value::from(ctx.environment.clone())),
        ("ports", Value::from_iter(ctx.ports.iter().copied())),
        ("entrypoint", Value::from(ctx.entrypoint.clone())),
        ("copy_files", Value::from_iter(ctx.copy_files.iter().cloned())),
        ("pixi_version", Value::from(ctx.pixi_version.clone())),
        ("build_command", Value::from(ctx.build_command.clone())),
        ("multi_stage", Value::from(ctx.multi_stage)),
        ("base_image", Value::from(ctx.base_image.clone())),
    ]);
    env.get_template("dockerfile")?.render(context)
}

/// The context of the environment `environment`: its effective settings,
/// the entrypoint translated through the metadata, and the global tool
/// version.
pub open spec fn context_of(config: Config, environment: Seq<char>, metadata: Option<PixiToml>) -> TemplateContextView {
    let s = effective(config, environment);
    let entrypoint = translated(s.entrypoint, metadata);
    TemplateContextView {
        environment,
        ports: s.ports,
        entrypoint: if entrypoint.len() == 0 {
            None
        } else {
            Some(entrypoint)
        },
        copy_files: s.copy_files,
        pixi_version: opt_chars(config.docker.pixi_version),
        build_command: s.build_command,
        multi_stage: s.multi_stage,
        base_image: s.base_image,
    }
}

/// Builds the context that the template receives for `environment`.
pub fn template_context(config: &Config, environment: &str, metadata: &Option<PixiToml>) -> (r:
    TemplateContext)
    requires
        config.wf(),
        metadata_wf(*metadata),
    ensures
        r@ == context_of(*config, environment@, *metadata),
{
    let s = resolve(config, environment);
    let entrypoint = translate_entrypoint(&s.entrypoint, metadata);
    let entrypoint = if entrypoint.as_str().is_empty() {
        None
    } else {
        Some(entrypoint)
    };
    TemplateContext {
        environment: environment.to_owned(),
        ports: s.ports,
        entrypoint,
        copy_files: s.copy_files,
        pixi_version: copy_opt(&config.docker.pixi_version),
        build_command: s.build_command,
        multi_stage: s.multi_stage,
        base_image: s.base_image,
    }
}

/// The name of the file generated for `environment`.
pub open spec fn dockerfile_name_of(environment: Seq<char>) -> Seq<char> {
    "Dockerfile."@ + environment
}

/// The name of the file generated for `environment`: `Dockerfile.<name>`.
pub fn dockerfile_name(environment: &str) -> (r: String)
    ensures
        r@ == dockerfile_name_of(environment@),
{
    String::from_str("Dockerfile.").concat(environment)
}

/// The environment a generation is for: the selected one, else the default.
pub open spec fn selected(config: Config, environment: Option<&str>) -> Seq<char> {
    match environment {
        Some(e) => e@,
        None => config.docker.environment@,
    }
}

/// The overlay environments generated besides the default one, in the
/// overlays' order, leaving out an overlay of the default environment.
pub open spec fn other_environments(
    environments: Seq<(String, crate::config::EnvironmentConfig)>,
    default: Seq<char>,
) -> Seq<Seq<char>>
    decreases environments.len(),
{
    if environments.len() == 0 {
        Seq::empty()
    } else {
        let rest = other_environments(environments.drop_last(), default);
        if environments.last().0@ == default {
            rest
        } else {
            rest.push(environments.last().0@)
        }
    }
}

/// Every environment generated: the default one first, then the others.
pub open spec fn generated_environments(config: Config) -> Seq<Seq<char>> {
    seq![config.docker.environment@] + other_environments(
        config.environments@,
        config.docker.environment@,
    )
}

/// Renders Dockerfiles from a template.
#[derive(Debug, Clone)]
pub struct DockerfileGenerator {
    pub template_content: String,
}

impl DockerfileGenerator {
    /// A generator with the built-in template.
    pub fn new() -> (r: DockerfileGenerator)
        ensures
            r.template_content@ == DEFAULT_TEMPLATE@,
    {
        DockerfileGenerator { template_content: Self::default_template().to_owned() }
    }

    /// A generator with the template text that could be read, or with the
    /// built-in template where none could.
    pub fn with_template(content: Option<String>) -> (r: DockerfileGenerator)
        ensures
            match content {
                Some(c) => r.template_content@ == c@,
                None => r.template_content@ == DEFAULT_TEMPLATE@,
            },
    {
        match content {
            Some(c) => DockerfileGenerator { template_content: c },
            None => Self::new(),
        }
    }

    /// The built-in template.
    pub fn default_template() -> (r: &'static str)
        ensures
            r@ == DEFAULT_TEMPLATE@,
    {
        DEFAULT_TEMPLATE
    }

    /// Renders the Dockerfile of `environment`, or of the default
    /// environment where it is `None`. `metadata` is `None` where the
    /// metadata document is missing or could not be read.
    pub fn generate(
        &self,
        config: &Config,
        environment: Option<&str>,
        metadata: &Option<PixiToml>,
    ) -> (r: Result<String, GenerateError>)
        requires
            config.wf(),
            metadata_wf(*metadata),
        ensures
            match r {
                Ok(s) => rendered(
                    self.template_content@,
                    context_of(*config, selected(*config, environment), *metadata),
                ) == Some(s@),
                Err(_) => rendered(
                    self.template_content@,
                    context_of(*config, selected(*config, environment), *metadata),
                ) is None,
            },
    {
        let name = match environment {
            Some(e) => e,
            None => config.docker.environment.as_str(),
        };
        let ctx = template_context(config, name, metadata);
        match render(self.template_content.as_str(), &ctx) {
            Ok(text) => Ok(text),
            Err(e) => Err(GenerateError::TemplateRender(e)),
        }
    }

    /// Renders one Dockerfile for the default environment and one for each
    /// other overlay environment, in that order, each named after its
    /// environment. Fails, with no partial result, where any rendering does.
    pub fn generate_all(&self, config: &Config, metadata: &Option<PixiToml>) -> (r: Result<
        Vec<(String, String)>,
        GenerateError,
    >)
        requires
            config.wf(),
            metadata_wf(*metadata),
        ensures
            r is Ok <==> forall|i: int|
                0 <= i < generated_environments(*config).len() ==> (#[trigger] rendered(
                    self.template_content@,
                    context_of(*config, generated_environments(*config)[i], *metadata),
                )) is Some,
            r matches Ok(files) ==> {
                &&& files@.len() == generated_environments(*config).len()
                &&& forall|i: int|
                    0 <= i < files@.len() ==> {
                        &&& (#[trigger] files@[i]).0@ == dockerfile_name_of(
                            generated_environments(*config)[i],
                        )
                        &&& rendered(
                            self.template_content@,
                            context_of(*config, generated_environments(*config)[i], *metadata),
                        ) == Some(files@[i].1@)
                    }
                &&& forall|i: int, j: int|
                    0 <= i < j < files@.len() ==> (#[trigger] files@[i]).0@ != (#[trigger] files@[
                        j
                    ]).0@
            },
    {
        let ghost all = generated_environments(*config);
        let ghost default = config.docker.environment@;
        let ghost tpl = self.template_content@;
        let mut files: Vec<(String, String)> = Vec::new();
        let first = self.generate(config, None, metadata);
        match first {
            Ok(text) => {
                files.push((dockerfile_name(config.docker.environment.as_str()), text));
            },
            Err(e) => {
                assert(all[0] == default);
                return Err(e);
            },
        }
        let n = config.environments.len();
        let mut i: usize = 0;
        assert(other_environments(config.environments@.subrange(0, 0), default)
            =~= Seq::<Seq<char>>::empty());
        while i < n
            invariant
                n == config.environments@.len(),
                i <= n,
                all == generated_environments(*config),
                default == config.docker.environment@,
                tpl == self.template_content@,
                config.wf(),
                metadata_wf(*metadata),
                files@.len() == 1 + other_environments(
                    config.environments@.subrange(0, i as int),
                    default,
                ).len(),
                files@.len() <= all.len(),
                forall|j: int|
                    0 <= j < files@.len() ==> {
                        &&& (#[trigger] files@[j]).0@ == dockerfile_name_of(all[j])
                        &&& rendered(tpl, context_of(*config, all[j], *metadata)) == Some(
                            files@[j].1@,
                        )
                    },
            decreases n - i,
        {
            let ghost next = config.environments@.subrange(0, i + 1);
            assert(next.drop_last() =~= config.environments@.subrange(0, i as int));
            proof {
                lemma_other_prefix(config.environments@, default, i + 1);
            }
            let name = &config.environments[i].0;
            if !name.eq(&config.docker.environment) {
                assert(all[files@.len() as int] == name@);
                let generated = self.generate(config, Some(name.as_str()), metadata);
                match generated {
                    Ok(text) => {
                        files.push((dockerfile_name(name.as_str()), text));
                    },
                    Err(e) => {
                        return Err(e);
                    },
                }
            }
            i = i + 1;
        }
        assert(config.environments@.subrange(0, n as int) =~= config.environments@);
        proof {
            lemma_generated_environments(*config);
            assert forall|a: int, b: int| 0 <= a < b < files@.len() implies (#[trigger] files@[
                a
            ]).0@ != (#[trigger] files@[b]).0@ by {
                lemma_dockerfile_name_injective(all[a], all[b]);
            }
        }
        assert forall|j: int| 0 <= j < all.len() implies (#[trigger] rendered(
            tpl,
            context_of(*config, all[j], *metadata),
        )) is Some by {
            assert(files@[j].0@ == dockerfile_name_of(all[j]));
        }
        Ok(files)
    }
}

/// The environments generated from a prefix of the overlays come first, in
/// the same order, among those generated from all of them.
proof fn lemma_other_prefix(
    environments: Seq<(String, crate::config::EnvironmentConfig)>,
    default: Seq<char>,
    k: int,
)
    requires
        0 <= k <= environments.len(),
    ensures
        ({
            let part = other_environments(environments.subrange(0, k), default);
            let whole = other_environments(environments, default);
            &&& part.len() <= whole.len()
            &&& forall|j: int| 0 <= j < part.len() ==> part[j] == whole[j]
        }),
    decreases environments.len(),
{
    if k == environments.len() {
        assert(environments.subrange(0, k) =~= environments);
    } else {
        let shorter = environments.drop_last();
        assert(shorter.subrange(0, k) =~= environments.subrange(0, k));
        lemma_other_prefix(shorter, default, k);
    }
}

/// Different environments get different file names.
proof fn lemma_dockerfile_name_injective(a: Seq<char>, b: Seq<char>)
    requires
        a != b,
    ensures
        dockerfile_name_of(a) != dockerfile_name_of(b),
{
    let p = "Dockerfile."@;
    if dockerfile_name_of(a) == dockerfile_name_of(b) {
        assert((p + a).subrange(p.len() as int, (p + a).len() as int) =~= a);
        assert((p + b).subrange(p.len() as int, (p + b).len() as int) =~= b);
    }
}

/// The overlay environments generated besides `default` are distinct, none
/// of them is `default`, each is an overlay key, and each overlay key other
/// than `default` is among them.
proof fn lemma_other_environments(
    environments: Seq<(String, crate::config::EnvironmentConfig)>,
    default: Seq<char>,
)
    requires
        keys_unique(environments),
    ensures
        ({
            let o = other_environments(environments, default);
            &&& forall|i: int, j: int| 0 <= i < j < o.len() ==> o[i] != o[j]
            &&& forall|i: int|
                0 <= i < o.len() ==> o[i] != default && exists|k: int|
                    0 <= k < environments.len() && (#[trigger] environments[k]).0@ == o[i]
            &&& forall|k: int|
                0 <= k < environments.len() && (#[trigger] environments[k]).0@ != default
                    ==> o.contains(environments[k].0@)
        }),
    decreases environments.len(),
{
    if environments.len() > 0 {
        let shorter = environments.drop_last();
        let last = environments.len() - 1;
        assert forall|i: int, j: int| 0 <= i < j < shorter.len() implies (
        #[trigger] shorter[i]).0@ != (#[trigger] shorter[j]).0@ by {
            assert(shorter[i] == environments[i]);
            assert(shorter[j] == environments[j]);
        }
        lemma_other_environments(shorter, default);
        let rest = other_environments(shorter, default);
        let o = other_environments(environments, default);
        assert forall|i: int| 0 <= i < rest.len() implies rest[i] != environments[last].0@ by {
            let k = choose|k: int| 0 <= k < shorter.len() && (#[trigger] shorter[k]).0@ == rest[i];
            assert(environments[k] == shorter[k]);
        }
        assert forall|i: int|
            0 <= i < o.len() implies o[i] != default && exists|k: int|
                0 <= k < environments.len() && (#[trigger] environments[k]).0@ == o[i] by {
            if i < rest.len() {
                let k = choose|k: int| 0 <= k < shorter.len() && (#[trigger] shorter[k]).0@ == rest[i];
                assert(environments[k] == shorter[k]);
            } else {
                assert(environments[last].0@ == o[i]);
            }
        }
        assert forall|k: int|
            0 <= k < environments.len() && (#[trigger] environments[k]).0@ != default implies o.contains(
            environments[k].0@) by {
            if k < last {
                assert(shorter[k] == environments[k]);
                let i = choose|i: int| 0 <= i < rest.len() && rest[i] == shorter[k].0@;
                assert(o[i] == rest[i]);
            } else {
                assert(o[o.len() - 1] == environments[k].0@);
            }
        }
    }
}

/// With one overlay per environment, the environments generated are the
/// default environment first and then each other overlay environment, each
/// exactly once.
pub proof fn lemma_generated_environments(config: Config)
    requires
        config.wf(),
    ensures
        generated_environments(config).no_duplicates(),
        generated_environments(config)[0] == config.docker.environment@,
        forall|k: int|
            0 <= k < config.environments@.len() ==> generated_environments(config).contains(
                (#[trigger] config.environments@[k]).0@,
            ),
        forall|i: int|
            0 <= i < generated_environments(config).len() ==> (#[trigger] generated_environments(
                config,
            )[i]) == config.docker.environment@ || exists|k: int|
                0 <= k < config.environments@.len() && (#[trigger] config.environments@[k]).0@
                    == generated_environments(config)[i],
{
    let d = config.docker.environment@;
    let envs = config.environments@;
    let all = generated_environments(config);
    let o = other_environments(envs, d);
    lemma_other_environments(envs, d);
    assert forall|i: int, j: int| 0 <= i < j < all.len() implies all[i] != all[j] by {
        if i > 0 {
            assert(all[i] == o[i - 1]);
        }
        assert(all[j] == o[j - 1]);
    }
    assert forall|k: int| 0 <= k < envs.len() implies all.contains((#[trigger] envs[k]).0@) by {
        if envs[k].0@ == d {
            assert(all[0] == d);
        } else {
            let i = choose|i: int| 0 <= i < o.len() && o[i] == envs[k].0@;
            assert(all[i + 1] == o[i]);
        }
    }
    assert forall|i: int| 0 <= i < all.len() implies (#[trigger] all[i]) == d || exists|k: int|
        0 <= k < envs.len() && (#[trigger] envs[k]).0@ == all[i] by {
        if i > 0 {
            assert(all[i] == o[i - 1]);
        }
    }
}

} // verus!