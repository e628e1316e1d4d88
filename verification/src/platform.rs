//! Runtime platform tag and the snapshot of the environment variables the
//! library reads, plus the per-platform constant tables: install guidance,
//! the file-manager opener and the browser cache location.
use vstd::prelude::*;

verus! {

use vstd::string::StringExecFns;

/// The platform the backend runs on, selected once at startup.
#[derive(Clone, Copy, PartialEq, Eq, Structural, Debug)]
pub enum Platform {
    MacOs,
    Windows,
    Linux,
    Other,
}

/// A snapshot of the environment variables consulted for executable
/// discovery; `None` means the variable is unset.
pub struct EnvInfo {
    pub path: Option<String>,
    pub home: Option<String>,
    pub appdata: Option<String>,
    pub userprofile: Option<String>,
    pub localappdata: Option<String>,
    pub programdata: Option<String>,
}

/// The view of an optional environment value, the empty string when unset.
pub open spec fn opt_or_empty(o: Option<String>) -> Seq<char> {
    match o {
        Some(s) => s@,
        None => Seq::empty(),
    }
}

/// The character separating entries of the `PATH` variable.
pub open spec fn path_sep_spec(platform: Platform) -> char {
    if platform == Platform::Windows {
        ';'
    } else {
        ':'
    }
}

/// Executable counterpart of [`path_sep_spec`].
pub fn path_separator(platform: Platform) -> (r: char)
    ensures
        r == path_sep_spec(platform),
{
    if platform == Platform::Windows {
        ';'
    } else {
        ':'
    }
}

/// The suggested command for installing the package manager.
pub open spec fn pnpm_install_command_spec(platform: Platform) -> Seq<char> {
    match platform {
        Platform::MacOs => "brew install pnpm"@,
        Platform::Windows => "npm install -g pnpm"@,
        Platform::Linux => "curl -fsSL https://get.pnpm.io/install.sh | sh -"@,
        Platform::Other => "npm install -g pnpm"@,
    }
}

/// Executable counterpart of [`pnpm_install_command_spec`].
pub fn get_pnpm_install_command(platform: Platform) -> (r: String)
    ensures
        r@ == pnpm_install_command_spec(platform),
{
    match platform {
        Platform::MacOs => String::from_str("brew install pnpm"),
        Platform::Windows => String::from_str("npm install -g pnpm"),
        Platform::Linux => String::from_str("curl -fsSL https://get.pnpm.io/install.sh | sh -"),
        Platform::Other => String::from_str("npm install -g pnpm"),
    }
}

/// The suggested command for installing the video encoder, none on an
/// unrecognized platform.
pub open spec fn ffmpeg_install_command_spec(platform: Platform) -> Option<Seq<char>> {
    match platform {
        Platform::MacOs => Some("brew install ffmpeg"@),
        Platform::Windows => Some("choco install ffmpeg"@),
        Platform::Linux => Some("sudo apt install ffmpeg"@),
        Platform::Other => None,
    }
}

/// Executable counterpart of [`ffmpeg_install_command_spec`].
pub fn get_ffmpeg_install_command(platform: Platform) -> (r: Option<String>)
    ensures
        r.deep_view() == ffmpeg_install_command_spec(platform),
{
    match platform {
        Platform::MacOs => Some(String::from_str("brew install ffmpeg")),
        Platform::Windows => Some(String::from_str("choco install ffmpeg")),
        Platform::Linux => Some(String::from_str("sudo apt install ffmpeg")),
        Platform::Other => None,
    }
}

/// The program that opens a directory in the platform's file manager, none
/// on an unrecognized platform.
pub open spec fn folder_opener_spec(platform: Platform) -> Option<Seq<char>> {
    match platform {
        Platform::MacOs => Some("open"@),
        Platform::Windows => Some("explorer"@),
        Platform::Linux => Some("xdg-open"@),
        Platform::Other => None,
    }
}

/// Executable counterpart of [`folder_opener_spec`].
pub fn folder_opener(platform: Platform) -> (r: Option<String>)
    ensures
        r.deep_view() == folder_opener_spec(platform),
{
    match platform {
        Platform::MacOs => Some(String::from_str("open")),
        Platform::Windows => Some(String::from_str("explorer")),
        Platform::Linux => Some(String::from_str("xdg-open")),
        Platform::Other => None,
    }
}

/// Where the browser-automation engine caches its downloaded browsers: a
/// well-known per-platform directory under the user's home or local
/// application data. An unrecognized platform uses the POSIX cache layout.
pub open spec fn playwright_cache_dir_spec(platform: Platform, env: &EnvInfo) -> Seq<char> {
    match platform {
        Platform::MacOs => opt_or_empty(env.home) + "/Library/Caches/ms-playwright"@,
        Platform::Windows => match env.localappdata {
            Some(a) => a@ + "\\ms-playwright"@,
            None => match env.userprofile {
                Some(u) => u@ + "\\AppData\\Local\\ms-playwright"@,
                None => opt_or_empty(env.home) + "\\ms-playwright"@,
            },
        },
        Platform::Linux => opt_or_empty(env.home) + "/.cache/ms-playwright"@,
        Platform::Other => opt_or_empty(env.home) + "/.cache/ms-playwright"@,
    }
}

fn opt_clone_or_empty(o: &Option<String>) -> (r: String)
    ensures
        r@ == opt_or_empty(*o),
{
    match o {
        Some(s) => s.clone(),
        None => String::new(),
    }
}

/// Executable counterpart of [`playwright_cache_dir_spec`].
pub fn playwright_cache_dir(platform: Platform, env: &EnvInfo) -> (r: String)
    ensures
        r@ == playwright_cache_dir_spec(platform, env),
{
    match platform {
        Platform::MacOs => {
            let mut r = opt_clone_or_empty(&env.home);
            r.append("/Library/Caches/ms-playwright");
            r
        },
        Platform::Windows => {
            match &env.localappdata {
                Some(a) => {
                    let mut r = a.clone();
                    r.append("\\ms-playwright");
                    r
                },
                None => {
                    match &env.userprofile {
                        Some(u) => {
                            let mut r = u.clone();
                            r.append("\\AppData\\Local\\ms-playwright");
                            r
                        },
                        None => {
                            let mut r = opt_clone_or_empty(&env.home);
                            r.append("\\ms-playwright");
                            r
                        },
                    }
                },
            }
        },
        _ => {
            let mut r = opt_clone_or_empty(&env.home);
            r.append("/.cache/ms-playwright");
            r
        },
    }
}

} // verus!
