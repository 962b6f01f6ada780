//! Flux bootstrap inputs resolved from flags, environment and the Git remote.

use vstd::prelude::*;
use crate::cli::{BootstrapFluxCommand, OutputFormat};
use crate::common::argv::{args1, args3, args5, lit, no_env, push_env};
use crate::runner::{CommandOutput, CommandRunner, IoMode, RunnerCall, RunnerError, outcome_succeeded, plain_call, probe_succeeded};
use crate::text::{
    flag_or_env_trimmed, has_prefix, lemma_prefix_before_at, lines_of, next_line, prefix_before, spec_flag_or_env_trimmed,
    spec_trimmed_nonempty, starts_with, str_eq, strip_cr, strip_trailing_cr, trim, trim_ws, trimmed_nonempty, find_char_from,
};
use super::validate::GitUrlError;

verus! {

/// Resolved settings of the Flux bootstrap.
#[derive(Debug, Clone)]
pub struct BootstrapFluxConfig {
    pub install_script_path: String,
    pub install_script_url: String,
    pub git_url: String,
    pub branch: String,
    pub cluster_path: String,
    pub namespace: String,
    pub kubeconfig: String,
    pub dry_run: bool,
    pub force: bool,
    pub skip_flux_cli_install: bool,
    /// Set after the `kubectl get ns` probe.
    pub namespace_exists: bool,
    /// User-supplied key path (bring your own key); never written.
    pub byok_private_key: Option<String>,
    /// Path passed to `flux bootstrap git --private-key-file`.
    pub private_key_bootstrap_path: Option<String>,
    /// Private key path of a generated key pair; cleanup deletes it and its `.pub`.
    pub ephemeral_key_pair_root: Option<String>,
    pub ephemeral_key_generated: bool,
    pub private_key_passphrase: Option<String>,
    pub keep_generated_key_dir: Option<String>,
    /// When true, `kubectl` / `flux` that touch the API run under `sudo` (root-only kubeconfig).
    pub kube_elevated: bool,
}

/// Resolved settings plus the report format.
#[derive(Debug, Clone)]
pub struct ResolvedFluxInputs {
    pub config: BootstrapFluxConfig,
    pub output: OutputFormat,
}

/// Why Flux inputs were rejected.
#[derive(Debug, Clone)]
pub enum FluxInputError {
    GitUrl(GitUrlError),
    BranchUndetected,
    /// The `--private-key-file` path (kept) does not name an existing file.
    PrivateKeyNotFile(String),
    PassphraseWithoutKey,
}

impl FluxInputError {
    /// Human-readable message for the error.
    pub fn message(&self) -> (r: String)
        ensures
            r@ == self.spec_message(),
    {
        match self {
            FluxInputError::GitUrl(e) => e.message(),
            FluxInputError::BranchUndetected => String::from_str(
                "Flux branch not set and remote default branch could not be detected; pass --branch, set FLUX_GIT_BRANCH, or run from a terminal for an interactive prompt",
            ),
            FluxInputError::PrivateKeyNotFile(p) => {
                let mut m = String::from_str("--private-key-file must point to an existing file: \"");
                m.append(p.as_str());
                m.append("\"");
                m
            },
            FluxInputError::PassphraseWithoutKey => String::from_str(
                "--private-key-passphrase is only valid with --private-key-file",
            ),
        }
    }

    pub open spec fn spec_message(&self) -> Seq<char> {
        match self {
            FluxInputError::GitUrl(e) => e.spec_message(),
            FluxInputError::BranchUndetected => "Flux branch not set and remote default branch could not be detected; pass --branch, set FLUX_GIT_BRANCH, or run from a terminal for an interactive prompt"@,
            FluxInputError::PrivateKeyNotFile(p) => "--private-key-file must point to an existing file: \""@ + p@ + "\""@,
            FluxInputError::PassphraseWithoutKey => "--private-key-passphrase is only valid with --private-key-file"@,
        }
    }
}

/// Flux manifest path from `--path` or `FLUX_GIT_PATH` (trimmed, non-empty).
pub fn cluster_path_from_opts_and_env(opts: &BootstrapFluxCommand, env_path: Option<String>) -> (r: Option<String>)
    ensures
        r.deep_view() == spec_flag_or_env_trimmed(opts.path.deep_view(), env_path.deep_view()),
{
    flag_or_env_trimmed(opts.path.clone(), env_path)
}

/// Git URL from `--url` or `FLUX_GIT_URL` (trimmed, non-empty).
pub fn git_url_from_opts_and_env(opts: &BootstrapFluxCommand, env_url: Option<String>) -> (r: Option<String>)
    ensures
        r.deep_view() == spec_flag_or_env_trimmed(opts.url.deep_view(), env_url.deep_view()),
{
    flag_or_env_trimmed(opts.url.clone(), env_url)
}

/// Branch from `--branch` or `FLUX_GIT_BRANCH` (trimmed, non-empty).
pub fn branch_from_opts_and_env(opts: &BootstrapFluxCommand, env_branch: Option<String>) -> (r: Option<String>)
    ensures
        r.deep_view() == spec_flag_or_env_trimmed(opts.branch.deep_view(), env_branch.deep_view()),
{
    flag_or_env_trimmed(opts.branch.clone(), env_branch)
}

/// The branch named by a `git ls-remote --symref` line `ref: refs/heads/<branch>\tHEAD`.
pub open spec fn head_ref_branch(line: Seq<char>) -> Option<Seq<char>> {
    let lhs = prefix_before(line, '\t');
    if lhs.len() == line.len() {
        None
    } else if line.skip(lhs.len() as int + 1) == "HEAD"@ && has_prefix(lhs, "ref: refs/heads/"@) {
        Some(lhs.skip(16))
    } else {
        None
    }
}

/// The first line that names the default branch.
pub open spec fn first_head_ref(lines: Seq<Seq<char>>) -> Option<Seq<char>>
    decreases lines.len(),
{
    if lines.len() == 0 {
        None
    } else {
        match head_ref_branch(lines[0]) {
            Some(b) => Some(b),
            None => first_head_ref(lines.drop_first()),
        }
    }
}

fn head_ref_branch_of_line(line: &str) -> (r: Option<String>)
    ensures
        r.deep_view() == head_ref_branch(line@),
{
    let n = line.unicode_len();
    let k = find_char_from(line, '\t', 0, n);
    proof {
        lemma_prefix_before_at(line@, '\t', k as int);
    }
    if k == n {
        return None;
    }
    let lhs = line.substring_char(0, k);
    let rhs = line.substring_char(k + 1, n);
    assert(lhs@ =~= line@.take(k as int));
    assert(rhs@ =~= line@.skip(k + 1));
    if str_eq(rhs, "HEAD") && starts_with(lhs, "ref: refs/heads/") {
        proof {
            reveal_strlit("ref: refs/heads/");
        }
        let branch = lhs.substring_char(16, k);
        assert(branch@ =~= lhs@.skip(16));
        Some(String::from_str(branch))
    } else {
        None
    }
}

/// The default branch reported by `git ls-remote --symref <url> HEAD`.
pub fn parse_default_branch_from_ls_remote(stdout: &str) -> (r: Option<String>)
    ensures
        r.deep_view() == first_head_ref(lines_of(stdout@)),
{
    let n = stdout.unicode_len();
    let mut start: usize = 0;
    assert(stdout@.skip(0) =~= stdout@);
    while start < n
        invariant
            start <= n,
            n == stdout@.len(),
            first_head_ref(lines_of(stdout@)) == first_head_ref(lines_of(stdout@.skip(start as int))),
        decreases n - start,
    {
        let e = next_line(stdout, start, n);
        let raw = stdout.substring_char(start, e);
        let line = if e < n { strip_trailing_cr(raw) } else { raw };
        let found = head_ref_branch_of_line(line);
        proof {
            let x = stdout@.skip(start as int);
            let ls = lines_of(x);
            assert(ls.len() > 0);
            assert(line@ == ls[0]);
            if e < n {
                assert(ls.drop_first() =~= lines_of(stdout@.skip(e + 1)));
            } else {
                assert(ls.drop_first() =~= Seq::<Seq<char>>::empty());
                assert(first_head_ref(ls.drop_first()) == None::<Seq<char>>);
            }
            assert(first_head_ref(ls) == match head_ref_branch(ls[0]) {
                Some(b) => Some(b),
                None => first_head_ref(ls.drop_first()),
            });
        }
        if found.is_some() {
            return found;
        }
        if e == n {
            return None;
        }
        start = e + 1;
    }
    assert(stdout@.skip(n as int).len() == 0);
    None
}

/// Branch resolution: the flag or environment value, else the remote's default
/// branch from `detect_default_branch`; without either, an error when stdin is not
/// a terminal and `Ok(None)` (ask the user) when it is.
pub fn resolve_branch_with<F: FnOnce(&str) -> Option<String>>(
    opts: &BootstrapFluxCommand,
    env_branch: Option<String>,
    git_url: &str,
    stdin_is_tty: bool,
    detect_default_branch: F,
) -> (r: Result<Option<String>, FluxInputError>)
    requires
        call_requires(detect_default_branch, (git_url,)),
    ensures
        match spec_flag_or_env_trimmed(opts.branch.deep_view(), env_branch.deep_view()) {
            Some(b) => r matches Ok(Some(s)) && s@ == b,
            None => exists|d: Option<String>|
                call_ensures(detect_default_branch, (git_url,), d) && match d {
                    Some(b) => r == Ok::<Option<String>, FluxInputError>(Some(b)),
                    None => if stdin_is_tty {
                        r == Ok::<Option<String>, FluxInputError>(None)
                    } else {
                        r matches Err(FluxInputError::BranchUndetected)
                    },
                },
        },
{
    match branch_from_opts_and_env(opts, env_branch) {
        Some(b) => return Ok(Some(b)),
        None => {},
    }
    let detected = detect_default_branch(git_url);
    match detected {
        Some(b) => Ok(Some(b)),
        None => if !stdin_is_tty {
            Err(FluxInputError::BranchUndetected)
        } else {
            Ok(None)
        },
    }
}

/// Branch used when the branch prompt is left blank.
pub const DEFAULT_PROMPT_BRANCH: &'static str = "main";

/// The branch typed at the prompt: trimmed, `main` when blank.
pub fn branch_from_prompt(answer: &str) -> (r: String)
    ensures
        r@ == (if trim_ws(answer@).len() == 0 {
            DEFAULT_PROMPT_BRANCH@
        } else {
            trim_ws(answer@)
        }),
{
    let t = trim(answer);
    if t.unicode_len() == 0 {
        String::from_str(DEFAULT_PROMPT_BRANCH)
    } else {
        String::from_str(t)
    }
}

/// `KUBECONFIG=<kubeconfig>`.
pub fn kube_env(kubeconfig: &str) -> (r: Vec<(String, String)>)
    ensures
        r.deep_view() == seq![("KUBECONFIG"@, kubeconfig@)],
{
    let mut env = no_env();
    push_env(&mut env, lit("KUBECONFIG"), lit(kubeconfig));
    env
}

/// The namespace probe: `sudo k3s kubectl get ns <ns>` when the kubeconfig needs
/// root, else `kubectl get ns <ns>`.
pub open spec fn spec_namespace_probe(namespace: Seq<char>, kube_elevated: bool) -> (Seq<char>, Seq<Seq<char>>) {
    if kube_elevated {
        ("sudo"@, seq!["k3s"@, "kubectl"@, "get"@, "ns"@, namespace])
    } else {
        ("kubectl"@, seq!["get"@, "ns"@, namespace])
    }
}

/// Program and arguments of the namespace probe.
pub fn namespace_probe_command(namespace: &str, kube_elevated: bool) -> (r: (String, Vec<String>))
    ensures
        (r.0@, r.1.deep_view()) == spec_namespace_probe(namespace@, kube_elevated),
{
    if kube_elevated {
        (lit("sudo"), args5(lit("k3s"), lit("kubectl"), lit("get"), lit("ns"), lit(namespace)))
    } else {
        (lit("kubectl"), args3(lit("get"), lit("ns"), lit(namespace)))
    }
}

/// The runner call of the namespace probe: its command line with `KUBECONFIG` set,
/// output captured.
pub open spec fn namespace_probe_call(kubeconfig: Seq<char>, namespace: Seq<char>, kube_elevated: bool) -> RunnerCall {
    let cmd = spec_namespace_probe(namespace, kube_elevated);
    plain_call(cmd.0, cmd.1, seq![("KUBECONFIG"@, kubeconfig)], IoMode::Buffered)
}

/// What the namespace probe answers for a runner outcome: whether the probe exited
/// successfully, or the runner's error.
pub open spec fn namespace_answer(outcome: Result<CommandOutput, RunnerError>) -> Result<bool, RunnerError> {
    match outcome {
        Ok(out) => Ok(out.success),
        Err(e) => Err(e),
    }
}

/// Whether the Flux namespace exists: the namespace probe, run with
/// `KUBECONFIG` set, exited successfully; a runner failure is passed on.
pub fn probe_flux_namespace<R: CommandRunner>(
    runner: &R,
    kubeconfig: &str,
    namespace: &str,
    kube_elevated: bool,
) -> (r: Result<bool, RunnerError>)
    requires
        runner.may_run(namespace_probe_call(kubeconfig@, namespace@, kube_elevated)),
    ensures
        exists|o: Result<CommandOutput, RunnerError>|
            #[trigger] runner.outcome_possible(namespace_probe_call(kubeconfig@, namespace@, kube_elevated), o)
                && r == namespace_answer(o),
{
    let env = kube_env(kubeconfig);
    let (program, args) = namespace_probe_command(namespace, kube_elevated);
    let outcome = runner.run_with_env_io(program.as_str(), &args, &env, IoMode::Buffered);
    match outcome {
        Ok(out) => Ok(out.success),
        Err(e) => Err(e),
    }
}

/// The runner call of the Flux CLI probe: `flux version`, no environment, output
/// captured.
pub open spec fn flux_cli_probe_call() -> RunnerCall {
    plain_call("flux"@, seq!["version"@], seq![], IoMode::Buffered)
}

/// Whether `flux version` runs successfully.
pub fn probe_flux_on_path<R: CommandRunner>(runner: &R) -> (r: bool)
    requires
        runner.may_run(flux_cli_probe_call()),
    ensures
        exists|o: Result<CommandOutput, RunnerError>|
            #[trigger] runner.outcome_possible(flux_cli_probe_call(), o) && r == outcome_succeeded(o),
{
    let args = args1(lit("version"));
    let env = no_env();
    let outcome = runner.run_with_env_io("flux", &args, &env, IoMode::Buffered);
    probe_succeeded(&outcome)
}

/// Values of the environment variables read while resolving the remaining inputs.
#[derive(Debug, Clone)]
pub struct FluxEnvironment {
    /// `FLUX_NAMESPACE`
    pub namespace: Option<String>,
    /// `KUBECONFIG`
    pub kubeconfig: Option<String>,
}

/// A path option, dropped when empty.
pub open spec fn nonempty_path(o: Option<String>) -> Option<String> {
    match o {
        Some(p) => if p@.len() > 0 {
            Some(p)
        } else {
            None
        },
        None => None,
    }
}

fn nonempty_path_exec(o: Option<String>) -> (r: Option<String>)
    ensures
        r == nonempty_path(o),
{
    match o {
        Some(p) => if p.unicode_len() > 0 {
            Some(p)
        } else {
            None
        },
        None => None,
    }
}

/// Completes the Flux settings once the Git URL, branch and manifest path are
/// known: namespace (default `flux-system`) and kubeconfig (default
/// `/etc/rancher/k3s/k3s.yaml`) from flags or environment, the install script URL
/// (default upstream), the optional key file (which must exist, as
/// `private_key_is_file` reports), and a passphrase only together with a key file.
pub fn resolve_inputs(
    opts: BootstrapFluxCommand,
    env: FluxEnvironment,
    git_url: String,
    branch: String,
    cluster_path: String,
    install_script_path: String,
    private_key_is_file: bool,
) -> (r: Result<ResolvedFluxInputs, FluxInputError>)
    ensures
        ({
            let byok = nonempty_path(opts.private_key_file);
            let pass = spec_trimmed_nonempty(opts.private_key_passphrase.deep_view());
            if byok is Some && !private_key_is_file {
                r matches Err(FluxInputError::PrivateKeyNotFile(p)) && p == byok->0
            } else if pass is Some && byok is None {
                r matches Err(FluxInputError::PassphraseWithoutKey)
            } else {
                r matches Ok(res) && {
                    &&& res.config.install_script_path == install_script_path
                    &&& res.config.install_script_url@ == (match opts.install_script_url {
                        Some(u) => u@,
                        None => "https://fluxcd.io/install.sh"@,
                    })
                    &&& res.config.git_url == git_url
                    &&& res.config.branch == branch
                    &&& res.config.cluster_path == cluster_path
                    &&& res.config.namespace@ == (match spec_flag_or_env_trimmed(opts.namespace.deep_view(), env.namespace.deep_view()) {
                        Some(v) => v,
                        None => "flux-system"@,
                    })
                    &&& res.config.kubeconfig@ == (match spec_flag_or_env_trimmed(opts.kubeconfig.deep_view(), env.kubeconfig.deep_view()) {
                        Some(v) => v,
                        None => "/etc/rancher/k3s/k3s.yaml"@,
                    })
                    &&& res.config.dry_run == opts.dry_run
                    &&& res.config.force == opts.force
                    &&& !res.config.skip_flux_cli_install
                    &&& !res.config.namespace_exists
                    &&& res.config.byok_private_key == byok
                    &&& res.config.private_key_bootstrap_path is None
                    &&& res.config.ephemeral_key_pair_root is None
                    &&& !res.config.ephemeral_key_generated
                    &&& res.config.private_key_passphrase.deep_view() == pass
                    &&& res.config.keep_generated_key_dir == nonempty_path(opts.keep_generated_key)
                    &&& !res.config.kube_elevated
                    &&& res.output == opts.output
                }
            }
        }),
{
    let namespace = match flag_or_env_trimmed(opts.namespace, env.namespace) {
        Some(v) => v,
        None => lit("flux-system"),
    };
    let kubeconfig = match flag_or_env_trimmed(opts.kubeconfig, env.kubeconfig) {
        Some(v) => v,
        None => lit("/etc/rancher/k3s/k3s.yaml"),
    };
    let install_script_url = match opts.install_script_url {
        Some(u) => u,
        None => lit("https://fluxcd.io/install.sh"),
    };
    let byok_private_key = nonempty_path_exec(opts.private_key_file);
    match &byok_private_key {
        Some(p) => if !private_key_is_file {
            return Err(FluxInputError::PrivateKeyNotFile(p.clone()));
        },
        None => {},
    }
    let private_key_passphrase = trimmed_nonempty(opts.private_key_passphrase);
    if private_key_passphrase.is_some() && byok_private_key.is_none() {
        return Err(FluxInputError::PassphraseWithoutKey);
    }
    let keep_generated_key_dir = nonempty_path_exec(opts.keep_generated_key);
    Ok(ResolvedFluxInputs {
        config: BootstrapFluxConfig {
            install_script_path,
            install_script_url,
            git_url,
            branch,
            cluster_path,
            namespace,
            kubeconfig,
            dry_run: opts.dry_run,
            force: opts.force,
            skip_flux_cli_install: false,
            namespace_exists: false,
            byok_private_key,
            private_key_bootstrap_path: None,
            ephemeral_key_pair_root: None,
            ephemeral_key_generated: false,
            private_key_passphrase,
            keep_generated_key_dir,
            kube_elevated: false,
        },
        output: opts.output,
    })
}

/// The user must confirm unless `--yes` or `--dry-run` is given.
pub fn needs_confirmation(opts: &BootstrapFluxCommand) -> (r: bool)
    ensures
        r == !(opts.yes || opts.dry_run),
{
    !(opts.yes || opts.dry_run)
}

} // verus!
