use figma_flow_capture::deps::{
    check_dependencies, check_system_dependencies, install_browsers_result,
    install_dependencies_result,
};
use figma_flow_capture::locator::{locate, search_paths, which_command_line, DirListings};
use figma_flow_capture::platform::{
    folder_opener, get_ffmpeg_install_command, get_pnpm_install_command, path_separator,
    playwright_cache_dir, EnvInfo, Platform,
};
use figma_flow_capture::prober::{
    check_playwright_browsers, ffmpeg_retry_path, probe, probe_command_line, ExecOutcome,
    ProbeResult,
};
use figma_flow_capture::session::{
    build_recorder_args, clean_name_from_url, get_main_project_path, get_project_root_path,
    get_recording_status, list_recordings, prepare_recording, recordings_path,
    resolve_recorder_root, start_recording_outcome, stop_failure_message, stop_recording,
    RecordingOptions, SessionRegistry, SpawnOutcome,
};
use figma_flow_capture::greet;

fn env_with_path(path: &str) -> EnvInfo {
    EnvInfo {
        path: Some(path.to_string()),
        home: None,
        appdata: None,
        userprofile: None,
        localappdata: None,
        programdata: None,
    }
}

fn empty_listings() -> DirListings {
    DirListings {
        nvm_node_dirs: Vec::new(),
        cellar_ffmpeg_dirs: Vec::new(),
    }
}

fn ok_outcome(stdout: &str, stderr: &str) -> ExecOutcome {
    ExecOutcome {
        success: true,
        stdout: stdout.to_string(),
        stderr: stderr.to_string(),
    }
}

fn failed_outcome() -> ExecOutcome {
    ExecOutcome {
        success: false,
        stdout: String::new(),
        stderr: "not found".to_string(),
    }
}

#[test]
fn greet_mentions_the_name() {
    assert_eq!(
        greet("Ada"),
        "Hello, Ada! Welcome to Figma Flow Capture!"
    );
}

#[test]
fn search_paths_are_duplicate_free_in_first_seen_order() {
    let env = env_with_path("/usr/bin:/usr/bin: /usr/local/bin :");
    let paths = search_paths(Platform::Linux, &env, "node", &empty_listings());
    assert_eq!(
        paths,
        vec![
            "/usr/bin/node".to_string(),
            "/usr/local/bin/node".to_string(),
            "/bin/node".to_string(),
            "/snap/bin/node".to_string(),
            "/var/lib/flatpak/exports/bin/node".to_string(),
        ]
    );
    for i in 0..paths.len() {
        for j in (i + 1)..paths.len() {
            assert_ne!(paths[i], paths[j]);
        }
    }
}

#[test]
fn search_paths_macos_ffmpeg_includes_cellar_listings() {
    let env = EnvInfo {
        path: Some("/usr/bin".to_string()),
        home: Some("/Users/kim".to_string()),
        appdata: None,
        userprofile: None,
        localappdata: None,
        programdata: None,
    };
    let listings = DirListings {
        nvm_node_dirs: Vec::new(),
        cellar_ffmpeg_dirs: vec!["/usr/local/Cellar/ffmpeg/6.0".to_string()],
    };
    let paths = search_paths(Platform::MacOs, &env, "ffmpeg", &listings);
    assert_eq!(paths[0], "/usr/bin/ffmpeg");
    assert!(paths.contains(&"/usr/local/Cellar/ffmpeg/6.0/bin/ffmpeg".to_string()));
    assert!(paths.contains(&"/opt/local/bin/ffmpeg".to_string()));
    assert!(paths.contains(&"/Users/kim/.local/bin/ffmpeg".to_string()));
    // The Homebrew path appears once although both the common and the
    // command-specific tables name it.
    assert_eq!(
        paths
            .iter()
            .filter(|p| p.as_str() == "/opt/homebrew/bin/ffmpeg")
            .count(),
        1
    );
}

#[test]
fn search_paths_windows_pnpm_uses_appdata() {
    let env = EnvInfo {
        path: Some("C:\\bin".to_string()),
        home: None,
        appdata: Some("C:\\Users\\kim\\AppData\\Roaming".to_string()),
        userprofile: None,
        localappdata: None,
        programdata: None,
    };
    let paths = search_paths(Platform::Windows, &env, "pnpm", &empty_listings());
    assert_eq!(paths[0], "C:\\bin/pnpm");
    assert!(paths.contains(&"C:\\Program Files\\nodejs\\pnpm.exe".to_string()));
    assert!(paths.contains(&"C:\\Users\\kim\\AppData\\Roaming\\npm\\pnpm.cmd".to_string()));
    // Named once although the common and the pnpm-specific tables overlap.
    assert_eq!(
        paths
            .iter()
            .filter(|p| p.as_str() == "C:\\Users\\kim\\AppData\\Roaming\\npm\\pnpm.cmd")
            .count(),
        1
    );
}

#[test]
fn probe_command_line_with_no_arguments_keeps_the_separator() {
    assert_eq!(
        probe_command_line(Platform::Windows, "node", &Vec::new()),
        "node "
    );
}

#[test]
fn locate_returns_bare_name_when_nothing_matches() {
    let candidates = vec![
        "/usr/bin/surely-absent".to_string(),
        "/bin/surely-absent".to_string(),
    ];
    let usable = vec![false, false];
    let found = locate("surely-absent", &None, &candidates, &usable);
    assert_eq!(found, "surely-absent");
}

#[test]
fn locate_prefers_shell_answer_then_first_usable_candidate() {
    let candidates = vec!["/a/node".to_string(), "/b/node".to_string()];
    let shell = Some(ok_outcome("  /usr/local/bin/node\n", ""));
    assert_eq!(
        locate("node", &shell, &candidates, &vec![true, true]),
        "/usr/local/bin/node"
    );
    assert_eq!(
        locate("node", &None, &candidates, &vec![false, true]),
        "/b/node"
    );
}

#[test]
fn locate_takes_the_first_result_of_multi_line_shell_output() {
    // `where` on Windows prints one matching path per line; only the first
    // is the located path.
    let shell = Some(ok_outcome(
        "C:\\first\\node.exe\r\nC:\\second\\node.exe\r\n",
        "",
    ));
    assert_eq!(
        locate("node", &shell, &Vec::new(), &Vec::new()),
        "C:\\first\\node.exe"
    );
    let unix_shell = Some(ok_outcome("/usr/local/bin/node\n/usr/bin/node\n", ""));
    assert_eq!(
        locate("node", &unix_shell, &Vec::new(), &Vec::new()),
        "/usr/local/bin/node"
    );
}

#[test]
fn probe_falls_through_to_deep_candidate() {
    let deep = vec![
        None,
        Some(failed_outcome()),
        Some(ok_outcome("ffmpeg version 6.0\nbuilt with clang\n", "")),
    ];
    let verdict = probe("ffmpeg", &Some(failed_outcome()), &Some(failed_outcome()), &deep, &None);
    assert!(verdict.installed);
    assert_eq!(verdict.version, Some("ffmpeg version 6.0".to_string()));
}

#[test]
fn probe_deep_tier_is_ffmpeg_only() {
    let deep = vec![Some(ok_outcome("v20.0.0\n", ""))];
    let verdict = probe("node", &Some(failed_outcome()), &None, &deep, &None);
    assert!(!verdict.installed);
    assert_eq!(verdict.version, None);
}

#[test]
fn probe_shell_tier_version_extraction() {
    let from_stdout = probe("node", &Some(ok_outcome(" v20.0.0\n", "")), &None, &vec![], &None);
    assert_eq!(from_stdout.version, Some("v20.0.0".to_string()));
    let from_stderr = probe("node", &Some(ok_outcome("", "v20.0.0\n")), &None, &vec![], &None);
    assert_eq!(from_stderr.version, Some("v20.0.0".to_string()));
    let silent = probe("node", &Some(ok_outcome("", "")), &None, &vec![], &None);
    assert_eq!(silent.version, Some("installed".to_string()));
}

#[test]
fn probe_direct_tier_ignores_stderr() {
    let verdict = probe("node", &None, &Some(ok_outcome("", "noise")), &vec![], &None);
    assert!(verdict.installed);
    assert_eq!(verdict.version, Some("installed".to_string()));
}

#[test]
fn probe_retry_decides_when_all_deep_candidates_fail() {
    let deep = vec![None, Some(failed_outcome())];
    let retry = Some(ok_outcome("ffmpeg version 7.1\nmore\n", ""));
    let verdict = probe("ffmpeg", &None, &None, &deep, &retry);
    assert!(verdict.installed);
    assert_eq!(verdict.version, Some("ffmpeg version 7.1".to_string()));
}

#[test]
fn checking_dependencies_twice_is_idempotent() {
    let node = ProbeResult { installed: true, version: Some("v20.0.0".to_string()) };
    let pnpm = ProbeResult { installed: false, version: None };
    let ffmpeg = ProbeResult { installed: true, version: Some("ffmpeg version 6.0\nconf".to_string()) };
    let browsers = ProbeResult { installed: true, version: Some("1.40".to_string()) };
    let first = check_system_dependencies(
        Platform::Linux, &node, &pnpm, &ffmpeg, &browsers, "/proj".to_string(),
    );
    let second = check_system_dependencies(
        Platform::Linux, &node, &pnpm, &ffmpeg, &browsers, "/proj".to_string(),
    );
    let flags_first: Vec<bool> = first.dependencies.iter().map(|d| d.installed).collect();
    let flags_second: Vec<bool> = second.dependencies.iter().map(|d| d.installed).collect();
    assert_eq!(flags_first, flags_second);
    assert_eq!(first.ready_to_record, second.ready_to_record);
    assert!(!first.ready_to_record);
}

#[test]
fn dependency_report_contents() {
    let node = ProbeResult { installed: true, version: Some("v20.0.0".to_string()) };
    let pnpm = ProbeResult { installed: false, version: None };
    let ffmpeg = ProbeResult { installed: true, version: Some("ffmpeg version 6.0\nconfiguration: x".to_string()) };
    let browsers = ProbeResult { installed: false, version: None };
    let report = check_system_dependencies(
        Platform::MacOs, &node, &pnpm, &ffmpeg, &browsers, "/proj".to_string(),
    );
    assert_eq!(report.dependencies.len(), 4);
    assert_eq!(report.dependencies[0].name, "Node.js");
    assert_eq!(report.dependencies[0].install_url, Some("https://nodejs.org/".to_string()));
    assert_eq!(report.dependencies[0].install_command, None);
    assert_eq!(report.dependencies[1].name, "pnpm");
    assert_eq!(
        report.dependencies[1].install_command,
        Some("brew install pnpm".to_string())
    );
    assert_eq!(report.dependencies[2].name, "FFmpeg");
    assert_eq!(
        report.dependencies[2].version,
        Some("ffmpeg version 6.0".to_string())
    );
    assert_eq!(
        report.dependencies[2].install_command,
        Some("brew install ffmpeg".to_string())
    );
    assert_eq!(report.dependencies[3].name, "Playwright Browsers");
    assert_eq!(
        report.dependencies[3].install_command,
        Some("pnpm exec playwright install".to_string())
    );
    assert_eq!(report.project_path, "/proj");
    assert!(!report.ready_to_record);
}

#[test]
fn lightweight_status_packs_verbatim() {
    let node = ProbeResult { installed: true, version: Some("v20.0.0".to_string()) };
    let pnpm = ProbeResult { installed: true, version: Some("9.0.0".to_string()) };
    let ffmpeg = ProbeResult { installed: false, version: None };
    let browsers = ProbeResult { installed: true, version: Some("browsers installed".to_string()) };
    let status = check_dependencies(&node, &pnpm, &ffmpeg, &browsers);
    assert!(status.nodejs.installed);
    assert_eq!(status.nodejs.version, Some("v20.0.0".to_string()));
    assert!(!status.ffmpeg.installed);
    assert_eq!(status.ffmpeg.version, None);
    assert_eq!(status.browsers.version, Some("browsers installed".to_string()));
}

#[test]
fn session_lifecycle_start_status_stop_status() {
    let mut registry = SessionRegistry::new();
    let session = start_recording_outcome(
        &mut registry,
        "id-1".to_string(),
        "1700000000".to_string(),
        "/proj/recordings/example.com-17".to_string(),
        &SpawnOutcome::Started(4242),
    );
    assert_eq!(session.status, "recording");
    assert_eq!(session.id, "id-1");
    assert_eq!(session.output_path, Some("/proj/recordings/example.com-17".to_string()));
    assert_eq!(session.error, None);
    assert!(registry.contains(&"id-1".to_string()));

    let polled = get_recording_status(&registry, "id-1".to_string(), 1700000033);
    assert_eq!(polled.status, "recording");
    assert_eq!(polled.start_time, "1700000033");

    let stopped = stop_recording(&mut registry, &"id-1".to_string());
    assert_eq!(stopped, Ok(4242));
    assert!(!registry.contains(&"id-1".to_string()));

    let after = get_recording_status(&registry, "id-1".to_string(), 1700000099);
    assert_eq!(after.status, "completed");
    assert_eq!(after.start_time, "");
}

#[test]
fn stop_recording_unknown_id_is_an_error() {
    let mut registry = SessionRegistry::new();
    let r = stop_recording(&mut registry, &"nope".to_string());
    assert_eq!(r, Err("Recording session not found: nope".to_string()));
}

#[test]
fn failed_spawn_registers_nothing() {
    let mut registry = SessionRegistry::new();
    let session = start_recording_outcome(
        &mut registry,
        "id-2".to_string(),
        "0".to_string(),
        "/p".to_string(),
        &SpawnOutcome::SpawnFailed("No such file or directory".to_string()),
    );
    assert_eq!(session.status, "failed");
    assert_eq!(session.output_path, None);
    assert_eq!(
        session.error,
        Some("Failed to start recording process: No such file or directory".to_string())
    );
    assert!(!registry.contains(&"id-2".to_string()));
    assert_eq!(registry.len(), 0);
}

#[test]
fn recording_plan_matches_the_documented_shape() {
    let options = RecordingOptions {
        figma_url: "https://example.com/file/abc?query=1".to_string(),
        recording_mode: "video".to_string(),
        quality: "high".to_string(),
        custom_width: None,
        custom_height: None,
        duration: Some(10),
        format: "mp4".to_string(),
        frame_rate: None,
        wait_for_canvas: true,
    };
    let plan = prepare_recording(&options, "/proj", 1700000000, 1700000000123);
    assert_eq!(plan.session_id.len(), 36);
    assert_eq!(plan.start_time, "1700000000");
    assert_eq!(plan.recordings_dir, "/proj/recordings");
    assert_eq!(plan.output_path, "/proj/recordings/example.com-1700000000123");
    assert_eq!(
        plan.args,
        vec![
            "tsx".to_string(),
            "src/cli.ts".to_string(),
            "--url".to_string(),
            "https://example.com/file/abc?query=1".to_string(),
            "--mode".to_string(),
            "video".to_string(),
            "--format".to_string(),
            "mp4".to_string(),
            "--duration".to_string(),
            "10".to_string(),
            "--wait-for-canvas".to_string(),
            "true".to_string(),
        ]
    );
}

#[test]
fn recorder_args_include_every_present_option() {
    let options = RecordingOptions {
        figma_url: "u".to_string(),
        recording_mode: "frames".to_string(),
        quality: "low".to_string(),
        custom_width: Some(1280),
        custom_height: Some(720),
        duration: Some(5),
        format: "png".to_string(),
        frame_rate: Some(30),
        wait_for_canvas: false,
    };
    let args = build_recorder_args(&options);
    assert_eq!(
        args,
        vec![
            "tsx", "src/cli.ts", "--url", "u", "--mode", "frames", "--format", "png",
            "--duration", "5", "--frame-rate", "30", "--width", "1280", "--height", "720",
            "--wait-for-canvas", "false",
        ]
        .into_iter()
        .map(|s| s.to_string())
        .collect::<Vec<String>>()
    );
}

#[test]
fn fresh_session_ids_have_uuid_shape() {
    let options = RecordingOptions {
        figma_url: "u".to_string(),
        recording_mode: "video".to_string(),
        quality: "high".to_string(),
        custom_width: None,
        custom_height: None,
        duration: None,
        format: "mp4".to_string(),
        frame_rate: None,
        wait_for_canvas: false,
    };
    let a = prepare_recording(&options, "/p", 0, 0);
    let b = prepare_recording(&options, "/p", 0, 0);
    assert_eq!(a.session_id.len(), 36);
    assert_eq!(b.session_id.len(), 36);
    assert_ne!(a.session_id, b.session_id);
    assert_eq!(a.session_id.matches('-').count(), 4);
}

#[test]
fn clean_name_picks_marker_segment_and_strips_query() {
    assert_eq!(
        clean_name_from_url("https://x.y/FarsiLang-Demo?q=1"),
        "FarsiLang-Demo"
    );
    assert_eq!(clean_name_from_url("https://example.com/file/abc?query=1"), "example.com");
    assert_eq!(clean_name_from_url("a/b/c"), "recording");
    assert_eq!(clean_name_from_url(""), "recording");
}

#[test]
fn list_recordings_of_missing_directory_is_empty() {
    let listed = list_recordings(&None);
    assert!(listed.is_empty());
    let listed = list_recordings(&Some(vec!["a.mp4".to_string(), "b.mp4".to_string()]));
    assert_eq!(listed, vec!["a.mp4".to_string(), "b.mp4".to_string()]);
}

#[test]
fn install_commands_per_platform() {
    assert_eq!(get_pnpm_install_command(Platform::MacOs), "brew install pnpm");
    assert_eq!(get_pnpm_install_command(Platform::Windows), "npm install -g pnpm");
    assert_eq!(
        get_pnpm_install_command(Platform::Linux),
        "curl -fsSL https://get.pnpm.io/install.sh | sh -"
    );
    assert_eq!(get_pnpm_install_command(Platform::Other), "npm install -g pnpm");
    assert_eq!(
        get_ffmpeg_install_command(Platform::MacOs),
        Some("brew install ffmpeg".to_string())
    );
    assert_eq!(
        get_ffmpeg_install_command(Platform::Windows),
        Some("choco install ffmpeg".to_string())
    );
    assert_eq!(
        get_ffmpeg_install_command(Platform::Linux),
        Some("sudo apt install ffmpeg".to_string())
    );
    assert_eq!(get_ffmpeg_install_command(Platform::Other), None);
}

#[test]
fn browsers_verdict_prefers_probe_results_then_cache() {
    let attempts = vec![
        ProbeResult { installed: false, version: None },
        ProbeResult { installed: true, version: Some("1.40.0".to_string()) },
    ];
    let verdict = check_playwright_browsers(&attempts, false);
    assert!(verdict.installed);
    assert_eq!(verdict.version, Some("1.40.0".to_string()));

    let none = vec![
        ProbeResult { installed: false, version: None },
        ProbeResult { installed: false, version: None },
    ];
    let from_cache = check_playwright_browsers(&none, true);
    assert!(from_cache.installed);
    assert_eq!(from_cache.version, Some("browsers installed".to_string()));

    let nothing = check_playwright_browsers(&none, false);
    assert!(!nothing.installed);
    assert_eq!(nothing.version, None);
}

#[test]
fn playwright_cache_locations() {
    let mac = EnvInfo {
        path: None,
        home: Some("/Users/kim".to_string()),
        appdata: None,
        userprofile: None,
        localappdata: None,
        programdata: None,
    };
    assert_eq!(
        playwright_cache_dir(Platform::MacOs, &mac),
        "/Users/kim/Library/Caches/ms-playwright"
    );
    let win = EnvInfo {
        path: None,
        home: None,
        appdata: None,
        userprofile: Some("C:\\Users\\kim".to_string()),
        localappdata: None,
        programdata: None,
    };
    assert_eq!(
        playwright_cache_dir(Platform::Windows, &win),
        "C:\\Users\\kim\\AppData\\Local\\ms-playwright"
    );
    let linux = EnvInfo {
        path: None,
        home: Some("/home/kim".to_string()),
        appdata: None,
        userprofile: None,
        localappdata: None,
        programdata: None,
    };
    assert_eq!(
        playwright_cache_dir(Platform::Linux, &linux),
        "/home/kim/.cache/ms-playwright"
    );
}

#[test]
fn command_lines_for_the_shell_tiers() {
    assert_eq!(which_command_line(Platform::Windows, "node"), "where node");
    assert_eq!(
        which_command_line(Platform::Linux, "node"),
        "source ~/.zshrc 2>/dev/null || true; source ~/.bash_profile 2>/dev/null || true; source ~/.profile 2>/dev/null || true; which node"
    );
    let args = vec!["--version".to_string()];
    assert_eq!(
        probe_command_line(Platform::Windows, "node", &args),
        "node --version"
    );
    assert_eq!(
        probe_command_line(Platform::MacOs, "node", &args),
        "source ~/.zshrc 2>/dev/null || true; source ~/.bash_profile 2>/dev/null || true; source ~/.profile 2>/dev/null || true; node --version"
    );
}

#[test]
fn ffmpeg_retry_path_prepends_missing_brew_dirs() {
    assert_eq!(
        ffmpeg_retry_path("/usr/bin".to_string()),
        "/opt/homebrew/opt/ffmpeg/bin:/usr/local/bin:/opt/homebrew/bin:/usr/bin"
    );
    assert_eq!(
        ffmpeg_retry_path("/opt/homebrew/bin:/usr/local/bin".to_string()),
        "/opt/homebrew/opt/ffmpeg/bin:/opt/homebrew/bin:/usr/local/bin"
    );
}

#[test]
fn install_results_carry_exact_messages() {
    let ok = install_dependencies_result(&Ok(ok_outcome("", "")));
    assert_eq!(ok, Ok("Dependencies installed successfully".to_string()));
    let failed = install_dependencies_result(&Ok(ExecOutcome {
        success: false,
        stdout: String::new(),
        stderr: "lockfile busy".to_string(),
    }));
    assert_eq!(failed, Err("pnpm install failed: lockfile busy".to_string()));
    let spawn = install_dependencies_result(&Err("no pnpm".to_string()));
    assert_eq!(spawn, Err("Failed to run pnpm install: no pnpm".to_string()));

    let ok = install_browsers_result(&Ok(ok_outcome("", "")));
    assert_eq!(ok, Ok("Playwright browsers installed successfully".to_string()));
    let spawn = install_browsers_result(&Err("gone".to_string()));
    assert_eq!(spawn, Err("Failed to install browsers: gone".to_string()));
}

#[test]
fn project_root_decisions() {
    assert_eq!(
        get_project_root_path(&Some("/proj".to_string()), true, &Some("/".to_string()), false),
        "/proj"
    );
    assert_eq!(
        get_project_root_path(&Some("/proj/gui".to_string()), false, &Some("/proj".to_string()), true),
        "/proj"
    );
    assert_eq!(
        get_project_root_path(&Some("/elsewhere".to_string()), false, &Some("/".to_string()), false),
        "/elsewhere"
    );
    assert_eq!(get_project_root_path(&None, false, &None, false), ".");

    assert_eq!(
        resolve_recorder_root(
            &"/proj/gui/src-tauri".to_string(),
            &Some("/proj/gui".to_string()),
            &Some("/proj".to_string()),
        ),
        Ok("/proj".to_string())
    );
    assert_eq!(
        resolve_recorder_root(&"/proj/gui".to_string(), &Some("/proj".to_string()), &None),
        Ok("/proj".to_string())
    );
    assert_eq!(
        resolve_recorder_root(&"/proj".to_string(), &None, &None),
        Ok("/proj".to_string())
    );
    assert_eq!(
        resolve_recorder_root(&"/gui/src-tauri".to_string(), &Some("/gui".to_string()), &None),
        Err("Failed to find project root".to_string())
    );

    assert_eq!(
        get_main_project_path(
            &Some("/p/gui/src-tauri".to_string()),
            &Some("/p/gui".to_string()),
            &Some("/p".to_string()),
        ),
        Some("/p".to_string())
    );
    assert_eq!(
        get_main_project_path(&Some("/p/gui".to_string()), &Some("/p".to_string()), &None),
        Some("/p".to_string())
    );
    assert_eq!(get_main_project_path(&Some("/p".to_string()), &None, &None), None);
}

#[test]
fn misc_fixed_strings() {
    assert_eq!(recordings_path("/proj"), "/proj/recordings");
    assert_eq!(
        stop_failure_message("exited"),
        "Failed to stop recording process: exited"
    );
    assert_eq!(folder_opener(Platform::MacOs), Some("open".to_string()));
    assert_eq!(folder_opener(Platform::Windows), Some("explorer".to_string()));
    assert_eq!(folder_opener(Platform::Linux), Some("xdg-open".to_string()));
    assert_eq!(folder_opener(Platform::Other), None);
    assert_eq!(path_separator(Platform::Windows), ';');
    assert_eq!(path_separator(Platform::Linux), ':');
}
