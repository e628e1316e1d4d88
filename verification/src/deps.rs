//! Dependency status aggregation: assembling the per-tool records, overall
//! readiness, and the result of invoking the package-manager installers.
use vstd::prelude::*;

verus! {

use vstd::string::StringExecFns;
use crate::platform::{Platform, pnpm_install_command_spec, ffmpeg_install_command_spec,
    get_pnpm_install_command, get_ffmpeg_install_command};
use crate::prober::{ProbeResult, ExecOutcome};
use crate::text::{first_line_opt_spec, first_line, clone_opt_string, concat2};

/// One required external tool: its detection verdict and install guidance.
#[derive(Debug)]
pub struct SystemDependency {
    pub name: String,
    pub installed: bool,
    pub version: Option<String>,
    pub install_command: Option<String>,
    pub install_url: Option<String>,
}

/// The reduced per-tool form used by the lightweight status query.
#[derive(Debug)]
pub struct DependencyInfo {
    pub installed: bool,
    pub version: Option<String>,
}

/// The lightweight status of all four required tools.
#[derive(Debug)]
pub struct DependencyStatus {
    pub nodejs: DependencyInfo,
    pub pnpm: DependencyInfo,
    pub ffmpeg: DependencyInfo,
    pub browsers: DependencyInfo,
}

/// The full dependency report: all four tools with guidance, overall
/// readiness, and the resolved project root.
#[derive(Debug)]
pub struct InstallationStatus {
    pub dependencies: Vec<SystemDependency>,
    pub ready_to_record: bool,
    pub project_path: String,
}

/// What the full dependency report must look like, given the four probe
/// verdicts: the fixed order and names of the entries, the guidance
/// attached to each, the version post-processing, and readiness as the
/// conjunction of the four installed flags.
pub open spec fn aggregate_matches(
    r: InstallationStatus,
    platform: Platform,
    node: ProbeResult,
    pnpm: ProbeResult,
    ffmpeg: ProbeResult,
    browsers: ProbeResult,
    project_path: Seq<char>,
) -> bool {
    let deps = r.dependencies@;
    &&& deps.len() == 4
    &&& deps[0].name@ == "Node.js"@
    &&& deps[0].installed == node.installed
    &&& deps[0].version.deep_view() == node.version.deep_view()
    &&& deps[0].install_command is None
    &&& deps[0].install_url.deep_view() == Some("https://nodejs.org/"@)
    &&& deps[1].name@ == "pnpm"@
    &&& deps[1].installed == pnpm.installed
    &&& deps[1].version.deep_view() == pnpm.version.deep_view()
    &&& deps[1].install_command.deep_view() == (if pnpm.installed {
        Option::<Seq<char>>::None
    } else {
        Some(pnpm_install_command_spec(platform))
    })
    &&& deps[1].install_url.deep_view() == Some("https://pnpm.io/installation"@)
    &&& deps[2].name@ == "FFmpeg"@
    &&& deps[2].installed == ffmpeg.installed
    &&& deps[2].version.deep_view() == (match ffmpeg.version.deep_view() {
        Some(v) => first_line_opt_spec(v),
        None => None,
    })
    &&& deps[2].install_command.deep_view() == ffmpeg_install_command_spec(platform)
    &&& deps[2].install_url.deep_view() == Some("https://ffmpeg.org/download.html"@)
    &&& deps[3].name@ == "Playwright Browsers"@
    &&& deps[3].installed == browsers.installed
    &&& deps[3].version.deep_view() == browsers.version.deep_view()
    &&& deps[3].install_command.deep_view() == Some("pnpm exec playwright install"@)
    &&& deps[3].install_url.deep_view() == Some("https://playwright.dev/docs/intro"@)
    &&& r.ready_to_record == (node.installed && pnpm.installed && ffmpeg.installed
        && browsers.installed)
    &&& r.project_path@ == project_path
}

/// Assembles the full dependency report from the four probe verdicts, in
/// fixed order: the JavaScript runtime, the package manager, the video
/// encoder (version truncated to its first line), and the
/// browser-automation engine. Install guidance is attached to the package
/// manager only when it is missing, to the encoder always, and to the
/// engine as the fixed browser-install instruction. Ready to record means
/// all four are installed.
pub fn check_system_dependencies(
    platform: Platform,
    node: &ProbeResult,
    pnpm: &ProbeResult,
    ffmpeg: &ProbeResult,
    browsers: &ProbeResult,
    project_path: String,
) -> (r: InstallationStatus)
    ensures
        aggregate_matches(r, platform, *node, *pnpm, *ffmpeg, *browsers, project_path@),
{
    let mut deps: Vec<SystemDependency> = Vec::new();
    deps.push(
        SystemDependency {
            name: String::from_str("Node.js"),
            installed: node.installed,
            version: clone_opt_string(&node.version),
            install_command: None,
            install_url: Some(String::from_str("https://nodejs.org/")),
        },
    );
    let pnpm_install_cmd = if pnpm.installed {
        None
    } else {
        Some(get_pnpm_install_command(platform))
    };
    deps.push(
        SystemDependency {
            name: String::from_str("pnpm"),
            installed: pnpm.installed,
            version: clone_opt_string(&pnpm.version),
            install_command: pnpm_install_cmd,
            install_url: Some(String::from_str("https://pnpm.io/installation")),
        },
    );
    let ffmpeg_version = match &ffmpeg.version {
        Some(v) => first_line(v.as_str()),
        None => None,
    };
    deps.push(
        SystemDependency {
            name: String::from_str("FFmpeg"),
            installed: ffmpeg.installed,
            version: ffmpeg_version,
            install_command: get_ffmpeg_install_command(platform),
            install_url: Some(String::from_str("https://ffmpeg.org/download.html")),
        },
    );
    deps.push(
        SystemDependency {
            name: String::from_str("Playwright Browsers"),
            installed: browsers.installed,
            version: clone_opt_string(&browsers.version),
            install_command: Some(String::from_str("pnpm exec playwright install")),
            install_url: Some(String::from_str("https://playwright.dev/docs/intro")),
        },
    );
    let ready = node.installed && pnpm.installed && ffmpeg.installed && browsers.installed;
    InstallationStatus { dependencies: deps, ready_to_record: ready, project_path }
}

/// The installed flags of a report, in entry order.
pub open spec fn installed_flags(r: InstallationStatus) -> Seq<bool> {
    r.dependencies@.map_values(|d: SystemDependency| d.installed)
}

/// Checking dependencies is idempotent: two reports assembled from probes
/// with the same installed verdicts carry identical installed flags and
/// the same readiness, whatever the version strings did.
pub proof fn lemma_check_idempotent(
    r1: InstallationStatus,
    r2: InstallationStatus,
    platform: Platform,
    node1: ProbeResult,
    pnpm1: ProbeResult,
    ffmpeg1: ProbeResult,
    browsers1: ProbeResult,
    node2: ProbeResult,
    pnpm2: ProbeResult,
    ffmpeg2: ProbeResult,
    browsers2: ProbeResult,
    path1: Seq<char>,
    path2: Seq<char>,
)
    requires
        aggregate_matches(r1, platform, node1, pnpm1, ffmpeg1, browsers1, path1),
        aggregate_matches(r2, platform, node2, pnpm2, ffmpeg2, browsers2, path2),
        node1.installed == node2.installed,
        pnpm1.installed == pnpm2.installed,
        ffmpeg1.installed == ffmpeg2.installed,
        browsers1.installed == browsers2.installed,
    ensures
        installed_flags(r1) == installed_flags(r2),
        r1.ready_to_record == r2.ready_to_record,
{
    assert(installed_flags(r1) =~= installed_flags(r2));
}

/// Packs the four probe verdicts into the lightweight status, verbatim and
/// in fixed order.
pub fn check_dependencies(
    node: &ProbeResult,
    pnpm: &ProbeResult,
    ffmpeg: &ProbeResult,
    browsers: &ProbeResult,
) -> (r: DependencyStatus)
    ensures
        r.nodejs.installed == node.installed,
        r.nodejs.version.deep_view() == node.version.deep_view(),
        r.pnpm.installed == pnpm.installed,
        r.pnpm.version.deep_view() == pnpm.version.deep_view(),
        r.ffmpeg.installed == ffmpeg.installed,
        r.ffmpeg.version.deep_view() == ffmpeg.version.deep_view(),
        r.browsers.installed == browsers.installed,
        r.browsers.version.deep_view() == browsers.version.deep_view(),
{
    DependencyStatus {
        nodejs: DependencyInfo {
            installed: node.installed,
            version: clone_opt_string(&node.version),
        },
        pnpm: DependencyInfo {
            installed: pnpm.installed,
            version: clone_opt_string(&pnpm.version),
        },
        ffmpeg: DependencyInfo {
            installed: ffmpeg.installed,
            version: clone_opt_string(&ffmpeg.version),
        },
        browsers: DependencyInfo {
            installed: browsers.installed,
            version: clone_opt_string(&browsers.version),
        },
    }
}

/// What invoking the package-manager install yields: the spawn error, a
/// fixed success message, or the run's standard error, each behind its
/// prefix.
pub fn install_dependencies_result(outcome: &Result<ExecOutcome, String>) -> (r: Result<
    String,
    String,
>)
    ensures
        outcome matches Err(e) ==> (r matches Err(m) && m@ == "Failed to run pnpm install: "@
            + e@),
        outcome matches Ok(o) ==> (if o.success {
            r matches Ok(m) && m@ == "Dependencies installed successfully"@
        } else {
            r matches Err(m) && m@ == "pnpm install failed: "@ + o.stderr@
        }),
{
    match outcome {
        Err(e) => Err(concat2("Failed to run pnpm install: ", e.as_str())),
        Ok(o) => {
            if o.success {
                Ok(String::from_str("Dependencies installed successfully"))
            } else {
                Err(concat2("pnpm install failed: ", o.stderr.as_str()))
            }
        },
    }
}

/// What invoking the package manager's browser-install script yields, by
/// the same rule as [`install_dependencies_result`].
pub fn install_browsers_result(outcome: &Result<ExecOutcome, String>) -> (r: Result<
    String,
    String,
>)
    ensures
        outcome matches Err(e) ==> (r matches Err(m) && m@ == "Failed to install browsers: "@
            + e@),
        outcome matches Ok(o) ==> (if o.success {
            r matches Ok(m) && m@ == "Playwright browsers installed successfully"@
        } else {
            r matches Err(m) && m@ == "Browser installation failed: "@ + o.stderr@
        }),
{
    match outcome {
        Err(e) => Err(concat2("Failed to install browsers: ", e.as_str())),
        Ok(o) => {
            if o.success {
                Ok(String::from_str("Playwright browsers installed successfully"))
            } else {
                Err(concat2("Browser installation failed: ", o.stderr.as_str()))
            }
        },
    }
}

} // verus!
