//! Recording-session lifecycle: the registry of live sessions, the plan for
//! one recorder invocation (identifier, output location, argument vector),
//! and the session records each operation reports.
use vstd::prelude::*;

verus! {

use vstd::string::StringExecFns;
use crate::text::{str_views, str_eq, has_substring, has_suffix, prefix_before, dec_spec,
    bool_str_spec, u64_to_string, bool_to_string, contains_str, ends_with, prefix_before_char,
    split_spec, split_str, concat2, concat3};
use vstd::utf8::encode_utf8;

/// One tracked session: its identifier and the numeric handle of the
/// recorder process it spawned.
pub struct SessionEntry {
    pub id: String,
    pub pid: u64,
}

/// The registry of live recording sessions, owned by the application and
/// consulted by every lifecycle operation. A present identifier denotes a
/// process believed still running; an absent one is reported completed.
pub struct SessionRegistry {
    entries: Vec<SessionEntry>,
}

/// The map an entry list denotes, later entries overriding earlier ones.
pub open spec fn entries_map(s: Seq<SessionEntry>) -> Map<Seq<char>, u64>
    decreases s.len(),
{
    if s.len() == 0 {
        Map::empty()
    } else {
        entries_map(s.drop_last()).insert(s.last().id@, s.last().pid)
    }
}

impl View for SessionRegistry {
    type V = Map<Seq<char>, u64>;

    closed spec fn view(&self) -> Map<Seq<char>, u64> {
        entries_map(self.entries@)
    }
}

proof fn lemma_entries_map_dom(s: Seq<SessionEntry>, x: Seq<char>)
    ensures
        entries_map(s).dom().contains(x) <==> exists|i: int|
            0 <= i < s.len() && s[i].id@ == x,
    decreases s.len(),
{
    if s.len() > 0 {
        lemma_entries_map_dom(s.drop_last(), x);
        if s.last().id@ != x {
            if exists|i: int| 0 <= i < s.len() - 1 && #[trigger] s.drop_last()[i].id@ == x {
                let i = choose|i: int| 0 <= i < s.len() - 1 && #[trigger] s.drop_last()[i].id@ == x;
                assert(s[i].id@ == x);
            }
            if exists|i: int| 0 <= i < s.len() && #[trigger] s[i].id@ == x {
                let i = choose|i: int| 0 <= i < s.len() && #[trigger] s[i].id@ == x;
                assert(s.drop_last()[i].id@ == x);
            }
        } else {
            assert(s[s.len() - 1].id@ == x);
        }
    }
}

proof fn lemma_entries_map_at(s: Seq<SessionEntry>, k: int)
    requires
        0 <= k < s.len(),
        forall|i: int, j: int| 0 <= i < j < s.len() ==> s[i].id@ != s[j].id@,
    ensures
        entries_map(s).dom().contains(s[k].id@),
        entries_map(s)[s[k].id@] == s[k].pid,
    decreases s.len(),
{
    if k < s.len() - 1 {
        assert(s.drop_last()[k] == s[k]);
        lemma_entries_map_at(s.drop_last(), k);
        assert(s[k].id@ != s.last().id@);
    }
}

impl SessionRegistry {
    /// The identifiers are pairwise distinct, so that the registry denotes
    /// its map faithfully and removal by identifier is unambiguous.
    pub closed spec fn wf(&self) -> bool {
        forall|i: int, j: int|
            0 <= i < j < self.entries@.len() ==> self.entries@[i].id@ != self.entries@[j].id@
    }

    /// An empty registry: no session is tracked.
    pub fn new() -> (r: SessionRegistry)
        ensures
            r.wf(),
            r@ == Map::<Seq<char>, u64>::empty(),
    {
        SessionRegistry { entries: Vec::new() }
    }

    /// Whether `id` is currently tracked.
    pub fn contains(&self, id: &String) -> (r: bool)
        ensures
            r == self@.dom().contains(id@),
    {
        let mut i: usize = 0;
        while i < self.entries.len()
            invariant
                i <= self.entries@.len(),
                forall|j: int| 0 <= j < i ==> self.entries@[j].id@ != id@,
            decreases self.entries@.len() - i,
        {
            if str_eq(self.entries[i].id.as_str(), id.as_str()) {
                proof {
                    lemma_entries_map_dom(self.entries@, id@);
                }
                return true;
            }
            i = i + 1;
        }
        proof {
            lemma_entries_map_dom(self.entries@, id@);
        }
        false
    }

    fn find_index(&self, id: &String) -> (r: Option<usize>)
        ensures
            match r {
                Some(k) => k < self.entries@.len() && self.entries@[k as int].id@ == id@,
                None => forall|j: int| 0 <= j < self.entries@.len() ==> self.entries@[j].id@ != id@,
            },
    {
        let mut i: usize = 0;
        while i < self.entries.len()
            invariant
                i <= self.entries@.len(),
                forall|j: int| 0 <= j < i ==> self.entries@[j].id@ != id@,
            decreases self.entries@.len() - i,
        {
            if str_eq(self.entries[i].id.as_str(), id.as_str()) {
                return Some(i);
            }
            i = i + 1;
        }
        None
    }

    /// Removes the session `id` and yields the handle of its process, or
    /// nothing when `id` is not tracked.
    pub fn remove(&mut self, id: &String) -> (r: Option<u64>)
        requires
            old(self).wf(),
        ensures
            final(self).wf(),
            final(self)@ == old(self)@.remove(id@),
            old(self)@.dom().contains(id@) ==> r == Some(old(self)@[id@]),
            !old(self)@.dom().contains(id@) ==> r is None && final(self)@ == old(self)@,
    {
        proof {
            lemma_entries_map_dom(self.entries@, id@);
        }
        match self.find_index(id) {
            Some(k) => {
                proof {
                    lemma_entries_map_at(self.entries@, k as int);
                    lemma_entries_map_remove(self.entries@, k as int);
                }
                let e = self.entries.remove(k);
                Some(e.pid)
            },
            None => {
                proof {
                    assert(!entries_map(self.entries@).dom().contains(id@));
                    assert(entries_map(self.entries@).remove(id@) =~= entries_map(self.entries@));
                }
                None
            },
        }
    }

    /// Tracks the session `id` with process handle `pid`, replacing any
    /// session previously tracked under the same identifier.
    pub fn insert(&mut self, id: String, pid: u64)
        requires
            old(self).wf(),
        ensures
            final(self).wf(),
            final(self)@ == old(self)@.insert(id@, pid),
    {
        let _ = self.remove(&id);
        let ghost mid = self.entries@;
        proof {
            lemma_entries_map_dom(mid, id@);
        }
        self.entries.push(SessionEntry { id, pid });
        proof {
            assert(self.entries@.drop_last() =~= mid);
            assert(entries_map(self.entries@) == entries_map(mid).insert(
                self.entries@.last().id@,
                self.entries@.last().pid,
            ));
            assert(old(self)@.remove(self.entries@.last().id@).insert(
                self.entries@.last().id@,
                pid,
            ) =~= old(self)@.insert(self.entries@.last().id@, pid));
        }
    }

    /// How many sessions are tracked.
    pub fn len(&self) -> (r: usize)
        requires
            self.wf(),
        ensures
            r == self@.dom().len(),
    {
        proof {
            lemma_entries_map_len(self.entries@);
        }
        self.entries.len()
    }
}

/// The options a caller submits when starting a recording, immutable once
/// submitted.
#[derive(Debug)]
pub struct RecordingOptions {
    pub figma_url: String,
    pub recording_mode: String,
    pub quality: String,
    pub custom_width: Option<u32>,
    pub custom_height: Option<u32>,
    pub duration: Option<u32>,
    pub format: String,
    pub frame_rate: Option<u32>,
    pub wait_for_canvas: bool,
}

/// One recording session as reported to the caller. The duration is in
/// whole seconds; no operation fills it in.
#[derive(Debug)]
pub struct RecordingSession {
    pub id: String,
    pub status: String,
    pub start_time: String,
    pub duration: Option<u64>,
    pub output_path: Option<String>,
    pub error: Option<String>,
}

/// The summary of one finished recording, as the recorder reports it back.
/// The duration is in whole seconds.
#[derive(Debug)]
pub struct RecordingResult {
    pub success: bool,
    pub output_path: Option<String>,
    pub duration: Option<u64>,
    pub frame_count: Option<u32>,
    pub error: Option<String>,
}

/// Whether a URL segment is content-bearing: it holds the design-file
/// marker, or its UTF-8 byte length (as the machine measures it) exceeds
/// ten.
pub open spec fn segment_matches(p: Seq<char>) -> bool {
    has_substring(p, "FarsiLang"@) || (encode_utf8(p).len() as usize) > 10
}

/// The first content-bearing segment, or the fixed fallback name.
pub open spec fn chosen_segment(parts: Seq<Seq<char>>) -> Seq<char>
    decreases parts.len(),
{
    if parts.len() == 0 {
        "recording"@
    } else if segment_matches(parts[0]) {
        parts[0]
    } else {
        chosen_segment(parts.drop_first())
    }
}

/// The output file base name derived from the recording URL: the first
/// content-bearing `/`-separated segment (or the fixed fallback), with any
/// query string stripped.
pub open spec fn clean_name_spec(url: Seq<char>) -> Seq<char> {
    prefix_before(chosen_segment(split_spec(url, '/')), '?')
}

proof fn lemma_chosen_segment_at(parts: Seq<Seq<char>>, i: int)
    requires
        0 <= i < parts.len(),
        segment_matches(parts[i]),
        forall|j: int| 0 <= j < i ==> !segment_matches(parts[j]),
    ensures
        chosen_segment(parts) == parts[i],
    decreases parts.len(),
{
    if i > 0 {
        lemma_chosen_segment_at(parts.drop_first(), i - 1);
    }
}

proof fn lemma_chosen_segment_none(parts: Seq<Seq<char>>)
    requires
        forall|j: int| 0 <= j < parts.len() ==> !segment_matches(parts[j]),
    ensures
        chosen_segment(parts) == "recording"@,
    decreases parts.len(),
{
    if parts.len() > 0 {
        lemma_chosen_segment_none(parts.drop_first());
    }
}

fn choose_segment(parts: &Vec<String>) -> (r: String)
    ensures
        r@ == chosen_segment(str_views(parts@)),
{
    let mut i: usize = 0;
    while i < parts.len()
        invariant
            i <= parts@.len(),
            forall|j: int| 0 <= j < i ==> !segment_matches(#[trigger] str_views(parts@)[j]),
        decreases parts@.len() - i,
    {
        proof {
            assert(str_views(parts@)[i as int] == parts@[i as int]@);
        }
        let p = &parts[i];
        if contains_str(p.as_str(), "FarsiLang") || p.as_str().len() > 10 {
            proof {
                lemma_chosen_segment_at(str_views(parts@), i as int);
            }
            return p.clone();
        }
        i = i + 1;
    }
    proof {
        lemma_chosen_segment_none(str_views(parts@));
    }
    String::from_str("recording")
}

/// Executable counterpart of [`clean_name_spec`].
pub fn clean_name_from_url(url: &str) -> (r: String)
    ensures
        r@ == clean_name_spec(url@),
{
    let parts = split_str(url, '/');
    let chosen = choose_segment(&parts);
    prefix_before_char(chosen.as_str(), '?')
}

/// A sequence of `flag value` arguments for an optional numeric option:
/// empty when the option is absent.
pub open spec fn opt_u32_args(flag: Seq<char>, v: Option<u32>) -> Seq<Seq<char>> {
    match v {
        Some(n) => seq![flag, dec_spec(n as int)],
        None => Seq::empty(),
    }
}

fn push_opt_u32(v: &mut Vec<String>, flag: &str, value: &Option<u32>)
    ensures
        str_views(final(v)@) == str_views(old(v)@) + opt_u32_args(flag@, *value),
{
    match value {
        Some(n) => {
            v.push(flag.to_owned());
            v.push(u64_to_string(*n as u64));
            proof {
                assert(str_views(v@) =~= str_views(old(v)@) + opt_u32_args(flag@, *value));
            }
        },
        None => {
            proof {
                assert(str_views(v@) =~= str_views(old(v)@) + opt_u32_args(flag@, *value));
            }
        },
    }
}

/// The argument vector handed to the external recorder: the fixed runner
/// and script, the URL, mode and format, each present optional field as a
/// named flag, and the canvas-wait flag with the boolean's string form.
pub open spec fn recorder_args_spec(o: RecordingOptions) -> Seq<Seq<char>> {
    seq![
        "tsx"@,
        "src/cli.ts"@,
        "--url"@,
        o.figma_url@,
        "--mode"@,
        o.recording_mode@,
        "--format"@,
        o.format@,
    ] + opt_u32_args("--duration"@, o.duration) + opt_u32_args("--frame-rate"@, o.frame_rate)
        + opt_u32_args("--width"@, o.custom_width) + opt_u32_args("--height"@, o.custom_height)
        + seq!["--wait-for-canvas"@, bool_str_spec(o.wait_for_canvas)]
}

/// Executable counterpart of [`recorder_args_spec`].
pub fn build_recorder_args(o: &RecordingOptions) -> (r: Vec<String>)
    ensures
        str_views(r@) == recorder_args_spec(*o),
{
    let mut v: Vec<String> = Vec::new();
    v.push(String::from_str("tsx"));
    v.push(String::from_str("src/cli.ts"));
    v.push(String::from_str("--url"));
    v.push(o.figma_url.clone());
    v.push(String::from_str("--mode"));
    v.push(o.recording_mode.clone());
    v.push(String::from_str("--format"));
    v.push(o.format.clone());
    let ghost base = str_views(v@);
    push_opt_u32(&mut v, "--duration", &o.duration);
    push_opt_u32(&mut v, "--frame-rate", &o.frame_rate);
    push_opt_u32(&mut v, "--width", &o.custom_width);
    push_opt_u32(&mut v, "--height", &o.custom_height);
    let ghost mid = str_views(v@);
    v.push(String::from_str("--wait-for-canvas"));
    v.push(bool_to_string(o.wait_for_canvas));
    proof {
        assert(base =~= seq![
            "tsx"@,
            "src/cli.ts"@,
            "--url"@,
            o.figma_url@,
            "--mode"@,
            o.recording_mode@,
            "--format"@,
            o.format@,
        ]);
        assert(str_views(v@) =~= mid + seq!["--wait-for-canvas"@, bool_str_spec(o.wait_for_canvas)]);
        assert(str_views(v@) =~= recorder_args_spec(*o));
    }
    v
}

/// Relies on `uuid::Uuid::new_v4` and its display form: a fresh random
/// version-4 UUID rendered as the 36-character hyphenated string.
#[verifier::external_body]
fn fresh_session_id() -> (r: String)
    ensures
        r@.len() == 36,
{
    uuid::Uuid::new_v4().to_string()
}

/// The recordings output directory under a project root.
pub fn recordings_path(project_path: &str) -> (r: String)
    ensures
        r@ == project_path@ + "/recordings"@,
{
    concat2(project_path, "/recordings")
}

/// Everything a recorder invocation needs, computed before the process is
/// spawned: the fresh session identifier, the textual start time, the
/// output locations and the argument vector.
pub struct RecordingPlan {
    pub session_id: String,
    pub start_time: String,
    pub recordings_dir: String,
    pub output_path: String,
    pub args: Vec<String>,
}

/// Lays out one recorder invocation: a fresh 36-character session
/// identifier, the start time in seconds, the recordings directory under
/// the project root, an output path named after the URL's content-bearing
/// segment and the millisecond timestamp, and the full argument vector.
pub fn prepare_recording(
    options: &RecordingOptions,
    project_root: &str,
    now_secs: u64,
    now_millis: u64,
) -> (r: RecordingPlan)
    ensures
        r.session_id@.len() == 36,
        r.start_time@ == dec_spec(now_secs as int),
        r.recordings_dir@ == project_root@ + "/recordings"@,
        r.output_path@ == project_root@ + "/recordings/"@ + clean_name_spec(options.figma_url@)
            + "-"@ + dec_spec(now_millis as int),
        str_views(r.args@) == recorder_args_spec(*options),
{
    let session_id = fresh_session_id();
    let start_time = u64_to_string(now_secs);
    let recordings_dir = recordings_path(project_root);
    let name = clean_name_from_url(options.figma_url.as_str());
    let stamp = u64_to_string(now_millis);
    let mut output_path = concat3(project_root, "/recordings/", name.as_str());
    output_path.append("-");
    output_path.append(stamp.as_str());
    let args = build_recorder_args(options);
    RecordingPlan { session_id, start_time, recordings_dir, output_path, args }
}

/// What spawning the recorder yielded: the handle of the started process,
/// or the reason it could not be started.
pub enum SpawnOutcome {
    Started(u64),
    SpawnFailed(String),
}

/// Finishes a session start from the spawn outcome. A started process is
/// registered under the session identifier and reported as `recording`
/// with its output path; a failed spawn registers nothing and is reported
/// as a `failed` session carrying the reason — reported, not retried, and
/// never an error of the operation itself.
pub fn start_recording_outcome(
    reg: &mut SessionRegistry,
    id: String,
    start_time: String,
    output_path: String,
    spawn: &SpawnOutcome,
) -> (r: RecordingSession)
    requires
        old(reg).wf(),
    ensures
        final(reg).wf(),
        r.id@ == id@,
        r.start_time@ == start_time@,
        r.duration is None,
        spawn matches SpawnOutcome::Started(pid) ==> {
            &&& final(reg)@ == old(reg)@.insert(id@, *pid)
            &&& r.status@ == "recording"@
            &&& r.output_path.deep_view() == Some(output_path@)
            &&& r.error is None
        },
        spawn matches SpawnOutcome::SpawnFailed(e) ==> {
            &&& final(reg)@ == old(reg)@
            &&& r.status@ == "failed"@
            &&& r.output_path is None
            &&& r.error.deep_view() == Some("Failed to start recording process: "@ + e@)
        },
{
    match spawn {
        SpawnOutcome::Started(pid) => {
            reg.insert(id.clone(), *pid);
            RecordingSession {
                id,
                status: String::from_str("recording"),
                start_time,
                duration: None,
                output_path: Some(output_path),
                error: None,
            }
        },
        SpawnOutcome::SpawnFailed(e) => {
            RecordingSession {
                id,
                status: String::from_str("failed"),
                start_time,
                duration: None,
                output_path: None,
                error: Some(concat2("Failed to start recording process: ", e.as_str())),
            }
        },
    }
}

/// Reports the status of the session `id`: `recording` (with the current
/// time as start time) while it is tracked, and `completed` (with an empty
/// start time) as soon as it is not — a session never started and one long
/// finished are indistinguishable here.
pub fn get_recording_status(reg: &SessionRegistry, session_id: String, now_secs: u64) -> (r:
    RecordingSession)
    ensures
        r.id@ == session_id@,
        reg@.dom().contains(session_id@) ==> r.status@ == "recording"@ && r.start_time@
            == dec_spec(now_secs as int),
        !reg@.dom().contains(session_id@) ==> r.status@ == "completed"@ && r.start_time@
            == Seq::<char>::empty(),
        r.duration is None,
        r.output_path is None,
        r.error is None,
{
    if reg.contains(&session_id) {
        RecordingSession {
            id: session_id,
            status: String::from_str("recording"),
            start_time: u64_to_string(now_secs),
            duration: None,
            output_path: None,
            error: None,
        }
    } else {
        RecordingSession {
            id: session_id,
            status: String::from_str("completed"),
            start_time: String::new(),
            duration: None,
            output_path: None,
            error: None,
        }
    }
}

/// Stops the session `id`: unregisters it and yields the handle of the
/// process to terminate. An unknown identifier yields a descriptive
/// error, never a crash, and changes nothing.
pub fn stop_recording(reg: &mut SessionRegistry, session_id: &String) -> (r: Result<u64, String>)
    requires
        old(reg).wf(),
    ensures
        final(reg).wf(),
        old(reg)@.dom().contains(session_id@) ==> (r matches Ok(pid) && pid == old(
            reg,
        )@[session_id@] && final(reg)@ == old(reg)@.remove(session_id@)),
        !old(reg)@.dom().contains(session_id@) ==> (r matches Err(m) && m@
            == "Recording session not found: "@ + session_id@ && final(reg)@ == old(reg)@),
{
    match reg.remove(session_id) {
        Some(pid) => Ok(pid),
        None => Err(concat2("Recording session not found: ", session_id.as_str())),
    }
}

/// The error reported when the termination signal could not be delivered
/// to a session's process.
pub fn stop_failure_message(reason: &str) -> (r: String)
    ensures
        r@ == "Failed to stop recording process: "@ + reason@,
{
    concat2("Failed to stop recording process: ", reason)
}

/// The names in the recordings output directory, as the filesystem layer
/// listed them; an unreadable or missing directory yields an empty list,
/// never an error.
pub fn list_recordings(entries: &Option<Vec<String>>) -> (r: Vec<String>)
    ensures
        entries matches Some(v) ==> str_views(r@) == str_views(v@),
        entries is None ==> r@.len() == 0,
{
    match entries {
        Some(v) => {
            let mut out: Vec<String> = Vec::new();
            let mut i: usize = 0;
            while i < v.len()
                invariant
                    i <= v@.len(),
                    str_views(out@) == str_views(v@).subrange(0, i as int),
                decreases v@.len() - i,
            {
                proof {
                    assert(str_views(out@.push(v@[i as int])) =~= str_views(out@).push(
                        v@[i as int]@,
                    ));
                    assert(str_views(v@).subrange(0, i + 1) =~= str_views(v@).subrange(
                        0,
                        i as int,
                    ).push(v@[i as int]@));
                }
                out.push(v[i].clone());
                i = i + 1;
            }
            proof {
                assert(str_views(v@).subrange(0, v@.len() as int) =~= str_views(v@));
            }
            out
        },
        None => Vec::new(),
    }
}

/// The project root the recorder runs from, as `start_recording` resolves
/// it: above a nested GUI build directory, the matching ancestor; else the
/// working directory itself. A needed but missing ancestor is an error.
pub open spec fn recorder_root_spec(
    cwd: Seq<char>,
    parent: Option<Seq<char>>,
    grandparent: Option<Seq<char>>,
) -> Result<Seq<char>, Seq<char>> {
    if has_substring(cwd, "gui"@) {
        if has_substring(cwd, "src-tauri"@) {
            match grandparent {
                Some(g) => Ok(g),
                None => Err("Failed to find project root"@),
            }
        } else {
            match parent {
                Some(p) => Ok(p),
                None => Err("Failed to find project root"@),
            }
        }
    } else {
        Ok(cwd)
    }
}

/// Executable counterpart of [`recorder_root_spec`]. The filesystem layer
/// hands in the working directory and its first two ancestors.
pub fn resolve_recorder_root(
    cwd: &String,
    parent: &Option<String>,
    grandparent: &Option<String>,
) -> (r: Result<String, String>)
    ensures
        recorder_root_spec(cwd@, parent.deep_view(), grandparent.deep_view()) matches Ok(v) ==> (
        r matches Ok(s) && s@ == v),
        recorder_root_spec(cwd@, parent.deep_view(), grandparent.deep_view()) matches Err(e) ==> (
        r matches Err(s) && s@ == e),
{
    if contains_str(cwd.as_str(), "gui") {
        if contains_str(cwd.as_str(), "src-tauri") {
            match grandparent {
                Some(g) => Ok(g.clone()),
                None => Err(String::from_str("Failed to find project root")),
            }
        } else {
            match parent {
                Some(p) => Ok(p.clone()),
                None => Err(String::from_str("Failed to find project root")),
            }
        }
    } else {
        Ok(cwd.clone())
    }
}

/// The project root used as the working directory of invoked tools: the
/// working directory when it holds the source-and-manifest markers, its
/// parent when that holds the source marker, else the working directory
/// unmodified (the fixed fallback when even that is unknown).
pub open spec fn project_root_spec(
    cwd: Option<Seq<char>>,
    cwd_has_markers: bool,
    parent: Option<Seq<char>>,
    parent_has_src: bool,
) -> Seq<char> {
    match cwd {
        Some(c) => if cwd_has_markers {
            c
        } else {
            match parent {
                Some(p) => if parent_has_src {
                    p
                } else {
                    c
                },
                None => c,
            }
        },
        None => "."@,
    }
}

/// Executable counterpart of [`project_root_spec`]. The filesystem layer
/// hands in the working directory, its parent, and whether each holds the
/// expected markers (`src` and the package manifest for the directory
/// itself, `src` for the parent).
pub fn get_project_root_path(
    cwd: &Option<String>,
    cwd_has_markers: bool,
    parent: &Option<String>,
    parent_has_src: bool,
) -> (r: String)
    ensures
        r@ == project_root_spec(cwd.deep_view(), cwd_has_markers, parent.deep_view(), parent_has_src),
{
    match cwd {
        Some(c) => {
            if cwd_has_markers {
                c.clone()
            } else {
                match parent {
                    Some(p) => {
                        if parent_has_src {
                            p.clone()
                        } else {
                            c.clone()
                        }
                    },
                    None => c.clone(),
                }
            }
        },
        None => String::from_str("."),
    }
}

/// The main project directory above the GUI subfolder, where one can be
/// recognized: the grandparent from inside the GUI build directory, the
/// parent from the GUI directory itself, and nothing otherwise — the
/// caller then falls back to [`get_project_root_path`].
pub open spec fn main_project_path_spec(
    cwd: Option<Seq<char>>,
    parent: Option<Seq<char>>,
    grandparent: Option<Seq<char>>,
) -> Option<Seq<char>> {
    match cwd {
        Some(c) => if has_substring(c, "gui/src-tauri"@) && grandparent is Some {
            grandparent
        } else if !has_substring(c, "gui/src-tauri"@) && has_suffix(c, "gui"@) && parent is Some {
            parent
        } else {
            None
        },
        None => None,
    }
}

/// Executable counterpart of [`main_project_path_spec`].
pub fn get_main_project_path(
    cwd: &Option<String>,
    parent: &Option<String>,
    grandparent: &Option<String>,
) -> (r: Option<String>)
    ensures
        r.deep_view() == main_project_path_spec(
            cwd.deep_view(),
            parent.deep_view(),
            grandparent.deep_view(),
        ),
{
    match cwd {
        Some(c) => {
            if contains_str(c.as_str(), "gui/src-tauri") {
                match grandparent {
                    Some(g) => Some(g.clone()),
                    None => None,
                }
            } else if ends_with(c.as_str(), "gui") {
                match parent {
                    Some(p) => Some(p.clone()),
                    None => None,
                }
            } else {
                None
            }
        },
        None => None,
    }
}

/// The session lifecycle over the registry's map model: a started session
/// is tracked under its identifier (so a status query reports it
/// recording), stopping finds exactly the registered process handle, and
/// afterwards the identifier is gone (so a status query reports it
/// completed).
pub proof fn lemma_session_lifecycle(m: Map<Seq<char>, u64>, id: Seq<char>, pid: u64)
    ensures
        m.insert(id, pid).dom().contains(id),
        m.insert(id, pid)[id] == pid,
        !m.insert(id, pid).remove(id).dom().contains(id),
{
}

proof fn lemma_entries_map_len(s: Seq<SessionEntry>)
    requires
        forall|i: int, j: int| 0 <= i < j < s.len() ==> s[i].id@ != s[j].id@,
    ensures
        entries_map(s).dom().finite(),
        entries_map(s).dom().len() == s.len(),
    decreases s.len(),
{
    if s.len() == 0 {
        assert(entries_map(s).dom() =~= Set::<Seq<char>>::empty());
    } else {
        assert(forall|i: int, j: int|
            0 <= i < j < s.drop_last().len() ==> s.drop_last()[i].id@ != s.drop_last()[j].id@);
        lemma_entries_map_len(s.drop_last());
        lemma_entries_map_dom(s.drop_last(), s.last().id@);
        assert(!entries_map(s.drop_last()).dom().contains(s.last().id@));
        assert(entries_map(s).dom() =~= entries_map(s.drop_last()).dom().insert(s.last().id@));
    }
}

proof fn lemma_entries_map_remove(s: Seq<SessionEntry>, k: int)
    requires
        0 <= k < s.len(),
        forall|i: int, j: int| 0 <= i < j < s.len() ==> s[i].id@ != s[j].id@,
    ensures
        entries_map(s.remove(k)) == entries_map(s).remove(s[k].id@),
    decreases s.len(),
{
    if k == s.len() - 1 {
        assert(s.remove(k) =~= s.drop_last());
        lemma_entries_map_dom(s.drop_last(), s[k].id@);
        assert(!entries_map(s.drop_last()).dom().contains(s[k].id@));
        assert(entries_map(s.drop_last()).insert(s.last().id@, s.last().pid).remove(s[k].id@)
            =~= entries_map(s.drop_last()));
    } else {
        assert(s.remove(k).drop_last() =~= s.drop_last().remove(k));
        assert(s.remove(k).last() == s.last());
        assert(s.drop_last()[k] == s[k]);
        lemma_entries_map_remove(s.drop_last(), k);
        assert(s[k].id@ != s.last().id@);
        assert(entries_map(s.drop_last()).remove(s[k].id@).insert(s.last().id@, s.last().pid)
            =~= entries_map(s.drop_last()).insert(s.last().id@, s.last().pid).remove(s[k].id@));
        assert(entries_map(s.remove(k)) == entries_map(s.remove(k).drop_last()).insert(
            s.remove(k).last().id@,
            s.remove(k).last().pid,
        ));
    }
}

} // verus!
