//! Command probing: interpretation of subprocess outcomes into an
//! installed/version verdict, through three escalating strategies, and the
//! shell command lines those strategies run.
use vstd::prelude::*;

verus! {

/// What running an external process yielded: its exit verdict and captured
/// output, decoded to text. The process layer hands one of these in for
/// every attempted execution; `None` at a call site means the process could
/// not be spawned at all.
pub struct ExecOutcome {
    pub success: bool,
    pub stdout: String,
    pub stderr: String,
}

/// The verdict of probing one tool: whether it is installed, and the
/// version string extracted from the probe.
pub struct ProbeResult {
    pub installed: bool,
    pub version: Option<String>,
}

use crate::text::{trim_spec, first_line_spec, str_views, trim_str, first_line, str_eq, concat2,
    concat3, join_strings, join_spec, clone_opt_string};
use crate::platform::Platform;
use crate::locator::{profile_source_prefix, profile_source_prefix_spec};
use vstd::string::StringExecFns;

/// The mathematical content of a [`ProbeResult`].
pub open spec fn probe_model(r: ProbeResult) -> (bool, Option<Seq<char>>) {
    (r.installed, r.version.deep_view())
}

/// The version the shell tier extracts from a successful run: trimmed
/// standard output, else trimmed standard error, else the literal marker.
pub open spec fn shell_version_of(o: ExecOutcome) -> Seq<char> {
    if trim_spec(o.stdout@).len() > 0 {
        trim_spec(o.stdout@)
    } else if trim_spec(o.stderr@).len() > 0 {
        trim_spec(o.stderr@)
    } else {
        "installed"@
    }
}

/// The version the direct-path tier extracts from a successful run:
/// trimmed standard output, else the literal marker (no fallback to
/// standard error).
pub open spec fn direct_version_of(o: ExecOutcome) -> Seq<char> {
    if trim_spec(o.stdout@).len() > 0 {
        trim_spec(o.stdout@)
    } else {
        "installed"@
    }
}

/// The version the command-specific deep tier extracts from a successful
/// run: the first line of the trimmed standard output, else the literal
/// marker.
pub open spec fn deep_version_of(o: ExecOutcome) -> Seq<char> {
    if trim_spec(o.stdout@).len() > 0 {
        first_line_spec(trim_spec(o.stdout@))
    } else {
        "installed"@
    }
}

/// Whether an attempted execution succeeded; a spawn failure (`None`)
/// counts as not installed at that tier.
pub open spec fn outcome_succeeded(outcome: Option<ExecOutcome>) -> bool {
    match outcome {
        Some(o) => o.success,
        None => false,
    }
}

/// The version of the first successful run among the deep tier's candidate
/// invocations, in order.
pub open spec fn deep_first_version(outcomes: Seq<Option<ExecOutcome>>) -> Option<Seq<char>>
    decreases outcomes.len(),
{
    if outcomes.len() == 0 {
        None
    } else if outcome_succeeded(outcomes[0]) {
        Some(deep_version_of(outcomes[0]->0))
    } else {
        deep_first_version(outcomes.drop_first())
    }
}

/// The verdict of the `ffmpeg`-specific deep search: the first successful
/// candidate invocation wins; failing that, the retry with an augmented
/// `PATH` decides; failing that, not installed.
pub open spec fn deep_probe_spec(
    outcomes: Seq<Option<ExecOutcome>>,
    retry: Option<ExecOutcome>,
) -> (bool, Option<Seq<char>>) {
    match deep_first_version(outcomes) {
        Some(v) => (true, Some(v)),
        None => if outcome_succeeded(retry) {
            (true, Some(deep_version_of(retry->0)))
        } else {
            (false, None)
        },
    }
}

/// The verdict of the full three-tier probe, first success wins: the shell
/// tier, the direct-path tier, then (for `ffmpeg` only) the deep search.
/// No tier fails the probe: an unsuccessful or unspawnable run falls
/// through silently, and a command absent everywhere is reported not
/// installed with no version.
pub open spec fn probe_spec(
    cmd: Seq<char>,
    tier1: Option<ExecOutcome>,
    tier2: Option<ExecOutcome>,
    deep: Seq<Option<ExecOutcome>>,
    retry: Option<ExecOutcome>,
) -> (bool, Option<Seq<char>>) {
    if outcome_succeeded(tier1) {
        (true, Some(shell_version_of(tier1->0)))
    } else if outcome_succeeded(tier2) {
        (true, Some(direct_version_of(tier2->0)))
    } else if cmd == "ffmpeg"@ {
        deep_probe_spec(deep, retry)
    } else {
        (false, None)
    }
}

fn version_from(o: &ExecOutcome, use_stderr: bool) -> (r: String)
    ensures
        use_stderr ==> r@ == shell_version_of(*o),
        !use_stderr ==> r@ == direct_version_of(*o),
{
    let t = trim_str(o.stdout.as_str());
    if !t.as_str().is_empty() {
        return t;
    }
    if use_stderr {
        let e = trim_str(o.stderr.as_str());
        if !e.as_str().is_empty() {
            return e;
        }
    }
    String::from_str("installed")
}

fn deep_version(o: &ExecOutcome) -> (r: String)
    ensures
        r@ == deep_version_of(*o),
{
    let t = trim_str(o.stdout.as_str());
    if t.as_str().is_empty() {
        String::from_str("installed")
    } else {
        match first_line(t.as_str()) {
            Some(l) => l,
            None => String::from_str("installed"),
        }
    }
}

proof fn lemma_deep_first_version_at(outcomes: Seq<Option<ExecOutcome>>, i: int)
    requires
        0 <= i < outcomes.len(),
        outcome_succeeded(outcomes[i]),
        forall|j: int| 0 <= j < i ==> !outcome_succeeded(outcomes[j]),
    ensures
        deep_first_version(outcomes) == Some(deep_version_of(outcomes[i]->0)),
    decreases outcomes.len(),
{
    if i > 0 {
        lemma_deep_first_version_at(outcomes.drop_first(), i - 1);
    }
}

proof fn lemma_deep_first_version_none(outcomes: Seq<Option<ExecOutcome>>)
    requires
        forall|j: int| 0 <= j < outcomes.len() ==> !outcome_succeeded(outcomes[j]),
    ensures
        deep_first_version(outcomes) is None,
    decreases outcomes.len(),
{
    if outcomes.len() > 0 {
        lemma_deep_first_version_none(outcomes.drop_first());
    }
}

/// The deep-probe verdict from the collected candidate invocations and the
/// augmented-`PATH` retry.
fn deep_probe(deep: &Vec<Option<ExecOutcome>>, retry: &Option<ExecOutcome>) -> (r: ProbeResult)
    ensures
        probe_model(r) == deep_probe_spec(deep@, *retry),
{
    let mut i: usize = 0;
    while i < deep.len()
        invariant
            i <= deep@.len(),
            forall|j: int| 0 <= j < i ==> !outcome_succeeded(deep@[j]),
        decreases deep@.len() - i,
    {
        match &deep[i] {
            Some(o) => {
                if o.success {
                    proof {
                        lemma_deep_first_version_at(deep@, i as int);
                    }
                    return ProbeResult { installed: true, version: Some(deep_version(o)) };
                }
            },
            None => {},
        }
        i = i + 1;
    }
    proof {
        lemma_deep_first_version_none(deep@);
    }
    match retry {
        Some(o) => {
            if o.success {
                return ProbeResult { installed: true, version: Some(deep_version(o)) };
            }
        },
        None => {},
    }
    ProbeResult { installed: false, version: None }
}

/// Probes a command through the three escalating strategies, given what
/// each attempted execution yielded (`None` where a tier's process could
/// not be spawned, or where an earlier tier's success made the attempt
/// unnecessary). Never fails: every execution failure falls through to the
/// next tier and, at worst, the command is reported not installed.
pub fn probe(
    command: &str,
    tier1: &Option<ExecOutcome>,
    tier2: &Option<ExecOutcome>,
    deep: &Vec<Option<ExecOutcome>>,
    retry: &Option<ExecOutcome>,
) -> (r: ProbeResult)
    ensures
        probe_model(r) == probe_spec(command@, *tier1, *tier2, deep@, *retry),
{
    match tier1 {
        Some(o) => {
            if o.success {
                return ProbeResult { installed: true, version: Some(version_from(o, true)) };
            }
        },
        None => {},
    }
    match tier2 {
        Some(o) => {
            if o.success {
                return ProbeResult { installed: true, version: Some(version_from(o, false)) };
            }
        },
        None => {},
    }
    if str_eq(command, "ffmpeg") {
        deep_probe(deep, retry)
    } else {
        ProbeResult { installed: false, version: None }
    }
}

/// A command that fails the first two tiers but whose binary answers the
/// version query at a deep-tier candidate is still reported installed,
/// with the version extracted from that run.
pub proof fn lemma_probe_deep_fallthrough(
    cmd: Seq<char>,
    tier1: Option<ExecOutcome>,
    tier2: Option<ExecOutcome>,
    deep: Seq<Option<ExecOutcome>>,
    retry: Option<ExecOutcome>,
    i: int,
)
    requires
        cmd == "ffmpeg"@,
        !outcome_succeeded(tier1),
        !outcome_succeeded(tier2),
        0 <= i < deep.len(),
        outcome_succeeded(deep[i]),
        forall|j: int| 0 <= j < i ==> !outcome_succeeded(deep[j]),
    ensures
        probe_spec(cmd, tier1, tier2, deep, retry) == (
            true,
            Some(deep_version_of(deep[i]->0)),
        ),
{
    lemma_deep_first_version_at(deep, i);
}

/// The verdict for the browser-automation engine: the first of the
/// escalating invocation attempts that reported installed wins; as a last
/// resort a non-empty browser cache counts as installed, with the fixed
/// marker in place of a version number.
pub open spec fn browsers_spec(attempts: Seq<ProbeResult>, cache_nonempty: bool) -> (
    bool,
    Option<Seq<char>>,
) {
    match first_installed(attempts) {
        Some(v) => (true, v),
        None => if cache_nonempty {
            (true, Some("browsers installed"@))
        } else {
            (false, None)
        },
    }
}

/// The version reported by the first attempt that found the tool.
pub open spec fn first_installed(attempts: Seq<ProbeResult>) -> Option<Option<Seq<char>>>
    decreases attempts.len(),
{
    if attempts.len() == 0 {
        None
    } else if attempts[0].installed {
        Some(attempts[0].version.deep_view())
    } else {
        first_installed(attempts.drop_first())
    }
}

proof fn lemma_first_installed_at(attempts: Seq<ProbeResult>, i: int)
    requires
        0 <= i < attempts.len(),
        attempts[i].installed,
        forall|j: int| 0 <= j < i ==> !attempts[j].installed,
    ensures
        first_installed(attempts) == Some(attempts[i].version.deep_view()),
    decreases attempts.len(),
{
    if i > 0 {
        lemma_first_installed_at(attempts.drop_first(), i - 1);
    }
}

proof fn lemma_first_installed_none(attempts: Seq<ProbeResult>)
    requires
        forall|j: int| 0 <= j < attempts.len() ==> !attempts[j].installed,
    ensures
        first_installed(attempts) is None,
    decreases attempts.len(),
{
    if attempts.len() > 0 {
        lemma_first_installed_none(attempts.drop_first());
    }
}

/// Executable counterpart of [`browsers_spec`]: decides from the results
/// of the escalating probe attempts (package-manager exec, direct binary,
/// temporary-package runner, project-local binary) and the state of the
/// browser cache directory.
pub fn check_playwright_browsers(attempts: &Vec<ProbeResult>, cache_nonempty: bool) -> (r:
    ProbeResult)
    ensures
        probe_model(r) == browsers_spec(attempts@, cache_nonempty),
{
    let mut i: usize = 0;
    while i < attempts.len()
        invariant
            i <= attempts@.len(),
            forall|j: int| 0 <= j < i ==> !attempts@[j].installed,
        decreases attempts@.len() - i,
    {
        if attempts[i].installed {
            proof {
                lemma_first_installed_at(attempts@, i as int);
            }
            return ProbeResult {
                installed: true,
                version: clone_opt_string(&attempts[i].version),
            };
        }
        i = i + 1;
    }
    proof {
        lemma_first_installed_none(attempts@);
    }
    if cache_nonempty {
        ProbeResult { installed: true, version: Some(String::from_str("browsers installed")) }
    } else {
        ProbeResult { installed: false, version: None }
    }
}

/// `path` with `brew_path` prepended unless already mentioned in it.
pub open spec fn add_brew_path(path: Seq<char>, brew_path: Seq<char>) -> Seq<char> {
    if crate::text::has_substring(path, brew_path) {
        path
    } else {
        brew_path + ":"@ + path
    }
}

/// The augmented `PATH` for the deep tier's macOS retry: the common
/// Homebrew locations prepended, in order, to the inherited `PATH` (the
/// empty string when unset), each skipped when already mentioned.
pub open spec fn ffmpeg_retry_path_spec(path: Seq<char>) -> Seq<char> {
    add_brew_path(
        add_brew_path(add_brew_path(path, "/opt/homebrew/bin"@), "/usr/local/bin"@),
        "/opt/homebrew/opt/ffmpeg/bin"@,
    )
}

fn add_one_brew_path(path: String, brew_path: &str) -> (r: String)
    ensures
        r@ == add_brew_path(path@, brew_path@),
{
    if crate::text::contains_str(path.as_str(), brew_path) {
        path
    } else {
        let mut r = brew_path.to_owned();
        r.append(":");
        r.append(path.as_str());
        r
    }
}

/// Executable counterpart of [`ffmpeg_retry_path_spec`].
pub fn ffmpeg_retry_path(path: String) -> (r: String)
    ensures
        r@ == ffmpeg_retry_path_spec(path@),
{
    let r = add_one_brew_path(path, "/opt/homebrew/bin");
    let r = add_one_brew_path(r, "/usr/local/bin");
    add_one_brew_path(r, "/opt/homebrew/opt/ffmpeg/bin")
}

/// The command line the shell tier runs: the command and its arguments
/// joined with spaces, preceded on POSIX platforms by the best-effort
/// profile sourcing, with the caller's `PATH` forwarded explicitly.
pub open spec fn probe_command_line_spec(
    platform: Platform,
    cmd: Seq<char>,
    args: Seq<Seq<char>>,
) -> Seq<char> {
    let base = cmd + " "@ + join_spec(args, " "@);
    if platform == Platform::Windows {
        base
    } else {
        profile_source_prefix_spec() + base
    }
}

/// Executable counterpart of [`probe_command_line_spec`].
pub fn probe_command_line(platform: Platform, command: &str, args: &Vec<String>) -> (r: String)
    ensures
        r@ == probe_command_line_spec(platform, command@, str_views(args@)),
{
    let joined = join_strings(args, " ");
    if platform == Platform::Windows {
        let mut r = concat2(command, " ");
        r.append(joined.as_str());
        r
    } else {
        let mut r = concat3(profile_source_prefix(), command, " ");
        r.append(joined.as_str());
        proof {
            assert(profile_source_prefix_spec() + command@ + " "@ + joined@
                =~= profile_source_prefix_spec() + (command@ + " "@ + joined@));
        }
        r
    }
}

} // verus!
