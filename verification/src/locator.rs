//! Executable discovery: the ordered candidate-path list for a command,
//! deduplication that keeps first-seen order, and the tiered resolution of a
//! command name to a runnable path.
use vstd::prelude::*;

verus! {

use vstd::string::StringExecFns;
use crate::text::{str_views, str_eq, trim_spec, split_spec, split_str, trim_str, concat2, concat3,
    concat4, first_line, first_line_spec};
use crate::platform::{Platform, EnvInfo, path_sep_spec, path_separator};
use crate::prober::ExecOutcome;

/// Left-to-right deduplication keeping the first occurrence of each element.
pub open spec fn dedup_spec(s: Seq<Seq<char>>) -> Seq<Seq<char>>
    decreases s.len(),
{
    if s.len() == 0 {
        Seq::empty()
    } else {
        let r = dedup_spec(s.drop_last());
        if r.contains(s.last()) {
            r
        } else {
            r.push(s.last())
        }
    }
}

/// Index of the first occurrence of `x` in `s` (`s.len()` if absent).
pub open spec fn first_occurrence(s: Seq<Seq<char>>, x: Seq<char>) -> int
    decreases s.len(),
{
    if s.len() == 0 {
        0
    } else if s[0] == x {
        0
    } else {
        1 + first_occurrence(s.drop_first(), x)
    }
}

proof fn lemma_first_occurrence_props(s: Seq<Seq<char>>, x: Seq<char>)
    ensures
        0 <= first_occurrence(s, x) <= s.len(),
        s.contains(x) <==> first_occurrence(s, x) < s.len(),
        first_occurrence(s, x) < s.len() ==> s[first_occurrence(s, x)] == x,
        forall|j: int| 0 <= j < first_occurrence(s, x) ==> s[j] != x,
    decreases s.len(),
{
    if s.len() > 0 && s[0] != x {
        lemma_first_occurrence_props(s.drop_first(), x);
        assert forall|j: int| 0 <= j < first_occurrence(s, x) implies s[j] != x by {
            if j > 0 {
                assert(s.drop_first()[j - 1] != x);
            }
        }
        if s.contains(x) {
            let w = choose|w: int| 0 <= w < s.len() && s[w] == x;
            assert(s.drop_first()[w - 1] == x);
            assert(s.drop_first().contains(x));
        }
        if s.drop_first().contains(x) {
            let w = choose|w: int| 0 <= w < s.drop_first().len() && s.drop_first()[w] == x;
            assert(s[w + 1] == x);
        }
    }
}

proof fn lemma_first_occurrence_drop_last(s: Seq<Seq<char>>, x: Seq<char>)
    requires
        s.len() > 0,
        s.drop_last().contains(x),
    ensures
        first_occurrence(s, x) == first_occurrence(s.drop_last(), x),
    decreases s.len(),
{
    lemma_first_occurrence_props(s.drop_last(), x);
    if s[0] != x {
        let w = choose|w: int| 0 <= w < s.drop_last().len() && s.drop_last()[w] == x;
        assert(s.drop_last()[0] == s[0]);
        assert(w != 0);
        assert(s.drop_first().drop_last() =~= s.drop_last().drop_first());
        assert(s.drop_last().drop_first()[w - 1] == x);
        assert(s.drop_first().drop_last().contains(x));
        lemma_first_occurrence_drop_last(s.drop_first(), x);
    }
}

proof fn lemma_dedup_contains(s: Seq<Seq<char>>, x: Seq<char>)
    ensures
        dedup_spec(s).contains(x) <==> s.contains(x),
    decreases s.len(),
{
    if s.len() > 0 {
        lemma_dedup_contains(s.drop_last(), x);
        lemma_dedup_contains(s.drop_last(), s.last());
        let s0 = s.drop_last();
        let r = dedup_spec(s0);
        if s.contains(x) {
            let w = choose|w: int| 0 <= w < s.len() && s[w] == x;
            if w < s.len() - 1 {
                assert(s0[w] == x);
                assert(s0.contains(x));
                let v = choose|v: int| 0 <= v < r.len() && r[v] == x;
                if !r.contains(s.last()) {
                    assert(r.push(s.last())[v] == x);
                    assert(dedup_spec(s).contains(x));
                }
            } else {
                assert(x == s.last());
                if r.contains(s.last()) {
                    assert(dedup_spec(s).contains(x));
                } else {
                    assert(r.push(s.last()).last() == x);
                    assert(dedup_spec(s).contains(x));
                }
            }
        }
        if dedup_spec(s).contains(x) {
            let w = choose|w: int| 0 <= w < dedup_spec(s).len() && dedup_spec(s)[w] == x;
            if r.contains(s.last()) {
                assert(r[w] == x);
                assert(r.contains(x));
                let v = choose|v: int| 0 <= v < s0.len() && s0[v] == x;
                assert(s[v] == x);
                assert(s.contains(x));
            } else if w < r.len() {
                assert(r[w] == x);
                assert(r.contains(x));
                let v = choose|v: int| 0 <= v < s0.len() && s0[v] == x;
                assert(s[v] == x);
                assert(s.contains(x));
            } else {
                assert(x == s.last());
                assert(s.contains(x));
            }
        }
    }
}

/// The deduplicated list holds exactly the elements of the input.
pub proof fn lemma_dedup_same_elements(s: Seq<Seq<char>>)
    ensures
        forall|x: Seq<char>| dedup_spec(s).contains(x) <==> s.contains(x),
{
    assert forall|x: Seq<char>| dedup_spec(s).contains(x) <==> s.contains(x) by {
        lemma_dedup_contains(s, x);
    }
}

/// Deduplication is duplicate-free and keeps first-seen order: distinct
/// entries of the result first occur in the input in the same order.
pub proof fn lemma_dedup_first_seen_order(s: Seq<Seq<char>>)
    ensures
        forall|i: int, j: int|
            0 <= i < j < dedup_spec(s).len() ==> dedup_spec(s)[i] != dedup_spec(s)[j],
        forall|i: int, j: int|
            0 <= i < j < dedup_spec(s).len() ==> first_occurrence(s, dedup_spec(s)[i])
                < first_occurrence(s, dedup_spec(s)[j]),
    decreases s.len(),
{
    if s.len() > 0 {
        let s0 = s.drop_last();
        let r = dedup_spec(s0);
        lemma_dedup_first_seen_order(s0);
        assert forall|i: int, j: int|
            0 <= i < j < dedup_spec(s).len() implies dedup_spec(s)[i] != dedup_spec(s)[j] by {
            if r.contains(s.last()) {
            } else {
                if j < r.len() {
                } else {
                    assert(dedup_spec(s)[i] == r[i]);
                    assert(r.contains(r[i]));
                    assert(dedup_spec(s)[j] == s.last());
                }
            }
        }
        assert forall|i: int, j: int|
            0 <= i < j < dedup_spec(s).len() implies first_occurrence(s, dedup_spec(s)[i])
            < first_occurrence(s, dedup_spec(s)[j]) by {
            let a = dedup_spec(s)[i];
            let b = dedup_spec(s)[j];
            if j < r.len() || r.contains(s.last()) {
                assert(a == r[i] && b == r[j]);
                assert(r.contains(a) && r.contains(b));
                lemma_dedup_contains(s0, a);
                lemma_dedup_contains(s0, b);
                lemma_first_occurrence_drop_last(s, a);
                lemma_first_occurrence_drop_last(s, b);
            } else {
                assert(a == r[i]);
                assert(r.contains(a));
                lemma_dedup_contains(s0, a);
                assert(s0.contains(a));
                assert(b == s.last());
                lemma_dedup_contains(s0, b);
                lemma_first_occurrence_drop_last(s, a);
                lemma_first_occurrence_props(s0, a);
                lemma_first_occurrence_props(s, b);
                assert(!s0.contains(b));
                if first_occurrence(s, b) < s.len() - 1 {
                    assert(s0[first_occurrence(s, b)] == b);
                    assert(s0.contains(b));
                }
                assert(first_occurrence(s, a) < s0.len());
            }
        }
    }
}

fn vec_contains_str(v: &Vec<String>, x: &String) -> (r: bool)
    ensures
        r == str_views(v@).contains(x@),
{
    let mut i: usize = 0;
    while i < v.len()
        invariant
            i <= v@.len(),
            forall|j: int| 0 <= j < i ==> str_views(v@)[j] != x@,
        decreases v@.len() - i,
    {
        if str_eq(v[i].as_str(), x.as_str()) {
            assert(str_views(v@)[i as int] == x@);
            return true;
        }
        i = i + 1;
    }
    false
}

/// Executable counterpart of [`dedup_spec`]: removes duplicates while
/// preserving discovery order.
pub fn dedup_paths(v: Vec<String>) -> (r: Vec<String>)
    ensures
        str_views(r@) == dedup_spec(str_views(v@)),
{
    let mut out: Vec<String> = Vec::new();
    let mut i: usize = 0;
    proof {
        assert(str_views(v@).subrange(0, 0) =~= Seq::<Seq<char>>::empty());
        assert(str_views(out@) =~= Seq::<Seq<char>>::empty());
    }
    while i < v.len()
        invariant
            i <= v@.len(),
            str_views(out@) == dedup_spec(str_views(v@).subrange(0, i as int)),
        decreases v@.len() - i,
    {
        let ghost pre = str_views(v@).subrange(0, i as int);
        let ghost post = str_views(v@).subrange(0, i + 1);
        proof {
            assert(post.drop_last() =~= pre);
            assert(post.last() == str_views(v@)[i as int]);
        }
        let x = v[i].clone();
        if !vec_contains_str(&out, &x) {
            proof {
                assert(str_views(out@.push(x)) =~= str_views(out@).push(x@));
            }
            out.push(x);
        }
        i = i + 1;
    }
    proof {
        assert(str_views(v@).subrange(0, v@.len() as int) =~= str_views(v@));
    }
    out
}

/// Directory listings that candidate construction folds in: the installed
/// version directories of the `node` version manager, and the versioned
/// formula directories of the Homebrew cellars. The filesystem layer reads
/// them (an unreadable directory yields an empty list) and hands the entry
/// paths in, in directory order.
pub struct DirListings {
    pub nvm_node_dirs: Vec<String>,
    pub cellar_ffmpeg_dirs: Vec<String>,
}

/// Each directory with `suffix` appended.
pub open spec fn suffixed(dirs: Seq<Seq<char>>, suffix: Seq<char>) -> Seq<Seq<char>> {
    dirs.map_values(|d: Seq<char>| d + suffix)
}

fn push_all(dst: &mut Vec<String>, src: Vec<String>)
    ensures
        str_views(final(dst)@) == str_views(old(dst)@) + str_views(src@),
{
    let ghost s0 = src@;
    let mut src = src;
    dst.append(&mut src);
    proof {
        assert(str_views(dst@) =~= str_views(old(dst)@) + str_views(s0));
    }
}

fn push_suffixed(v: &mut Vec<String>, dirs: &Vec<String>, suffix: &str)
    ensures
        str_views(final(v)@) == str_views(old(v)@) + suffixed(str_views(dirs@), suffix@),
{
    let mut i: usize = 0;
    proof {
        assert(str_views(v@) =~= str_views(v@) + suffixed(
            str_views(dirs@).subrange(0, 0),
            suffix@,
        ));
    }
    while i < dirs.len()
        invariant
            i <= dirs@.len(),
            str_views(v@) == str_views(old(v)@) + suffixed(
                str_views(dirs@).subrange(0, i as int),
                suffix@,
            ),
        decreases dirs@.len() - i,
    {
        let mut entry = dirs[i].clone();
        entry.append(suffix);
        proof {
            assert(suffixed(str_views(dirs@).subrange(0, i + 1), suffix@) =~= suffixed(
                str_views(dirs@).subrange(0, i as int),
                suffix@,
            ).push(entry@));
            assert(str_views(v@.push(entry)) =~= str_views(v@).push(entry@));
            assert(str_views(v@).push(entry@) =~= str_views(old(v)@) + suffixed(
                str_views(dirs@).subrange(0, i as int),
                suffix@,
            ).push(entry@));
        }
        v.push(entry);
        i = i + 1;
    }
    proof {
        assert(str_views(dirs@).subrange(0, dirs@.len() as int) =~= str_views(dirs@));
    }
}

/// The candidates contributed by the `PATH` variable: each non-empty trimmed
/// entry with `/` and the command name appended.
pub open spec fn path_entry_cands(parts: Seq<Seq<char>>, cmd: Seq<char>) -> Seq<Seq<char>>
    decreases parts.len(),
{
    if parts.len() == 0 {
        Seq::empty()
    } else {
        let t = trim_spec(parts[0]);
        (if t.len() == 0 {
            Seq::empty()
        } else {
            seq![t + "/"@ + cmd]
        }) + path_entry_cands(parts.drop_first(), cmd)
    }
}

proof fn lemma_path_entry_cands_push(parts: Seq<Seq<char>>, cmd: Seq<char>, p: Seq<char>)
    ensures
        path_entry_cands(parts.push(p), cmd) == path_entry_cands(parts, cmd) + (if trim_spec(
            p,
        ).len() == 0 {
            Seq::<Seq<char>>::empty()
        } else {
            seq![trim_spec(p) + "/"@ + cmd]
        }),
    decreases parts.len(),
{
    let chunk = if trim_spec(p).len() == 0 {
        Seq::<Seq<char>>::empty()
    } else {
        seq![trim_spec(p) + "/"@ + cmd]
    };
    if parts.len() == 0 {
        assert(parts.push(p).drop_first() =~= Seq::<Seq<char>>::empty());
        assert(parts.push(p)[0] == p);
        assert(chunk + Seq::<Seq<char>>::empty() =~= chunk);
        assert(path_entry_cands(parts, cmd) + chunk =~= chunk);
        assert(path_entry_cands(parts.push(p), cmd) == chunk + path_entry_cands(
            parts.push(p).drop_first(),
            cmd,
        ));
        assert(path_entry_cands(parts.push(p).drop_first(), cmd) == Seq::<Seq<char>>::empty());
        assert(path_entry_cands(parts.push(p), cmd) == path_entry_cands(parts, cmd) + chunk);
    } else {
        assert(parts.push(p).drop_first() =~= parts.drop_first().push(p));
        assert(parts.push(p)[0] == parts[0]);
        lemma_path_entry_cands_push(parts.drop_first(), cmd, p);
        let h = if trim_spec(parts[0]).len() == 0 {
            Seq::<Seq<char>>::empty()
        } else {
            seq![trim_spec(parts[0]) + "/"@ + cmd]
        };
        assert(path_entry_cands(parts.push(p), cmd) == h + path_entry_cands(
            parts.push(p).drop_first(),
            cmd,
        ));
        assert(path_entry_cands(parts.push(p).drop_first(), cmd) == path_entry_cands(
            parts.drop_first(),
            cmd,
        ) + chunk);
        assert(h + (path_entry_cands(parts.drop_first(), cmd) + chunk) =~= (h + path_entry_cands(
            parts.drop_first(),
            cmd,
        )) + chunk);
        assert(path_entry_cands(parts, cmd) == h + path_entry_cands(parts.drop_first(), cmd));
        assert(path_entry_cands(parts.push(p), cmd) == path_entry_cands(parts, cmd) + chunk);
    }
}

/// The candidates contributed by the `PATH` variable, empty when it is
/// unset.
pub open spec fn path_env_cands(path_env: Option<String>, sep: char, cmd: Seq<char>) -> Seq<
    Seq<char>,
> {
    match path_env {
        Some(pe) => path_entry_cands(split_spec(pe@, sep), cmd),
        None => Seq::empty(),
    }
}

/// The well-known install locations searched on macOS for any command:
/// Homebrew and system directories, then npm/nvm/volta/pnpm locations under
/// the home directory.
pub open spec fn mac_common_cands(home: Option<String>, cmd: Seq<char>) -> Seq<Seq<char>> {
    seq![
        "/opt/homebrew/bin/"@ + cmd,
        "/usr/local/bin/"@ + cmd,
        "/usr/bin/"@ + cmd,
        "/bin/"@ + cmd,
    ] + match home {
        Some(h) => seq![
            h@ + "/.npm-global/bin/"@ + cmd,
            h@ + "/bin/"@ + cmd,
            h@ + "/.nvm/current/bin/"@ + cmd,
            h@ + "/.volta/bin/"@ + cmd,
            h@ + "/Library/pnpm/"@ + cmd,
        ],
        None => Seq::empty(),
    }
}

/// The macOS command-specific additions: version-manager directories for
/// `node`, Homebrew/MacPorts/cellar locations for `ffmpeg`, and dedicated
/// global-install locations for `pnpm`.
pub open spec fn mac_special_cands(
    home: Option<String>,
    cmd: Seq<char>,
    nvm_dirs: Seq<Seq<char>>,
    cellar_dirs: Seq<Seq<char>>,
) -> Seq<Seq<char>> {
    if cmd == "node"@ {
        seq!["/Applications/Node.js/bin/node"@] + match home {
            Some(h) => suffixed(nvm_dirs, "/bin/node"@),
            None => Seq::empty(),
        }
    } else if cmd == "ffmpeg"@ {
        seq![
            "/opt/homebrew/bin/ffmpeg"@,
            "/usr/local/bin/ffmpeg"@,
            "/opt/homebrew/opt/ffmpeg/bin/ffmpeg"@,
            "/usr/local/opt/ffmpeg/bin/ffmpeg"@,
            "/Applications/FFmpeg/ffmpeg"@,
            "/Applications/FFmpeg/bin/ffmpeg"@,
            "/usr/local/Cellar/ffmpeg/*/bin/ffmpeg"@,
            "/opt/homebrew/Cellar/ffmpeg/*/bin/ffmpeg"@,
        ] + match home {
            Some(h) => suffixed(cellar_dirs, "/bin/ffmpeg"@) + seq![
                "/opt/local/bin/ffmpeg"@,
                h@ + "/bin/ffmpeg"@,
                h@ + "/.local/bin/ffmpeg"@,
            ],
            None => Seq::empty(),
        }
    } else if cmd == "pnpm"@ {
        (match home {
            Some(h) => seq![
                h@ + "/.local/share/pnpm/pnpm"@,
                h@ + "/Library/pnpm/pnpm"@,
                h@ + "/.npm-global/bin/pnpm"@,
            ],
            None => Seq::empty(),
        }) + seq![
            "/usr/local/lib/node_modules/pnpm/bin/pnpm.js"@,
            "/opt/homebrew/lib/node_modules/pnpm/bin/pnpm.js"@,
        ]
    } else {
        Seq::empty()
    }
}

/// The well-known install locations searched on Windows: the Node.js and
/// system directories, then npm locations under the roaming profile.
pub open spec fn win_common_cands(
    appdata: Option<String>,
    userprofile: Option<String>,
    cmd: Seq<char>,
) -> Seq<Seq<char>> {
    seq![
        "C:\\Program Files\\nodejs\\"@ + cmd + ".exe"@,
        "C:\\Program Files (x86)\\nodejs\\"@ + cmd + ".exe"@,
        "C:\\Windows\\System32\\"@ + cmd + ".exe"@,
        "C:\\Windows\\"@ + cmd + ".exe"@,
    ] + (match appdata {
        Some(a) => seq![a@ + "\\npm\\"@ + cmd + ".cmd"@, a@ + "\\npm\\"@ + cmd + ".exe"@],
        None => Seq::empty(),
    }) + (match userprofile {
        Some(u) => seq![
            u@ + "\\AppData\\Roaming\\npm\\"@ + cmd + ".cmd"@,
            u@ + "\\AppData\\Roaming\\npm\\"@ + cmd + ".exe"@,
        ],
        None => Seq::empty(),
    })
}

/// The Windows command-specific additions: dedicated and chocolatey
/// locations for `ffmpeg`, the npm shim for `pnpm`.
pub open spec fn win_special_cands(
    appdata: Option<String>,
    programdata: Option<String>,
    cmd: Seq<char>,
) -> Seq<Seq<char>> {
    if cmd == "ffmpeg"@ {
        seq![
            "C:\\Program Files\\FFmpeg\\bin\\ffmpeg.exe"@,
            "C:\\Program Files (x86)\\FFmpeg\\bin\\ffmpeg.exe"@,
            "C:\\ffmpeg\\bin\\ffmpeg.exe"@,
        ] + match programdata {
            Some(p) => seq![p@ + "\\chocolatey\\bin\\ffmpeg.exe"@],
            None => Seq::empty(),
        }
    } else if cmd == "pnpm"@ {
        match appdata {
            Some(a) => seq![a@ + "\\npm\\pnpm.cmd"@],
            None => Seq::empty(),
        }
    } else {
        Seq::empty()
    }
}

/// The well-known install locations searched on Linux: system, snap and
/// flatpak directories, then per-user locations under the home directory.
pub open spec fn linux_common_cands(home: Option<String>, cmd: Seq<char>) -> Seq<Seq<char>> {
    seq![
        "/usr/bin/"@ + cmd,
        "/usr/local/bin/"@ + cmd,
        "/bin/"@ + cmd,
        "/snap/bin/"@ + cmd,
        "/var/lib/flatpak/exports/bin/"@ + cmd,
    ] + match home {
        Some(h) => seq![
            h@ + "/.local/bin/"@ + cmd,
            h@ + "/bin/"@ + cmd,
            h@ + "/.npm-global/bin/"@ + cmd,
            h@ + "/.nvm/current/bin/"@ + cmd,
        ],
        None => Seq::empty(),
    }
}

/// The Linux command-specific additions: version-manager directories for
/// `node`, the dedicated global-install location for `pnpm`.
pub open spec fn linux_special_cands(
    home: Option<String>,
    cmd: Seq<char>,
    nvm_dirs: Seq<Seq<char>>,
) -> Seq<Seq<char>> {
    if cmd == "node"@ {
        match home {
            Some(h) => suffixed(nvm_dirs, "/bin/node"@),
            None => Seq::empty(),
        }
    } else if cmd == "pnpm"@ {
        match home {
            Some(h) => seq![h@ + "/.local/share/pnpm/pnpm"@],
            None => Seq::empty(),
        }
    } else {
        Seq::empty()
    }
}

/// Every candidate path for `cmd`, in discovery order and before
/// deduplication: the `PATH` entries first, then the platform's common
/// locations, then its command-specific additions.
pub open spec fn search_path_candidates(
    platform: Platform,
    env: &EnvInfo,
    cmd: Seq<char>,
    listings: &DirListings,
) -> Seq<Seq<char>> {
    path_env_cands(env.path, path_sep_spec(platform), cmd) + match platform {
        Platform::MacOs => mac_common_cands(env.home, cmd) + mac_special_cands(
            env.home,
            cmd,
            str_views(listings.nvm_node_dirs@),
            str_views(listings.cellar_ffmpeg_dirs@),
        ),
        Platform::Windows => win_common_cands(env.appdata, env.userprofile, cmd)
            + win_special_cands(env.appdata, env.programdata, cmd),
        Platform::Linux => linux_common_cands(env.home, cmd) + linux_special_cands(
            env.home,
            cmd,
            str_views(listings.nvm_node_dirs@),
        ),
        Platform::Other => Seq::empty(),
    }
}

/// The full candidate path list for `cmd`: [`search_path_candidates`]
/// deduplicated, keeping first-seen order (order encodes preference).
pub open spec fn search_paths_spec(
    platform: Platform,
    env: &EnvInfo,
    cmd: Seq<char>,
    listings: &DirListings,
) -> Seq<Seq<char>> {
    dedup_spec(search_path_candidates(platform, env, cmd, listings))
}

fn path_env_candidates(path_env: &Option<String>, sep: char, cmd: &str) -> (r: Vec<String>)
    ensures
        str_views(r@) == path_env_cands(*path_env, sep, cmd@),
{
    let mut r: Vec<String> = Vec::new();
    match path_env {
        None => {
            proof {
                assert(str_views(r@) =~= Seq::<Seq<char>>::empty());
            }
        },
        Some(pe) => {
            let parts = split_str(pe.as_str(), sep);
            let ghost pviews = split_spec(pe@, sep);
            let mut i: usize = 0;
            proof {
                assert(pviews.subrange(0, 0) =~= Seq::<Seq<char>>::empty());
                assert(str_views(r@) =~= path_entry_cands(pviews.subrange(0, 0), cmd@));
            }
            while i < parts.len()
                invariant
                    i <= parts@.len(),
                    str_views(parts@) == pviews,
                    str_views(r@) == path_entry_cands(pviews.subrange(0, i as int), cmd@),
                decreases parts@.len() - i,
            {
                proof {
                    assert(pviews.subrange(0, i + 1) =~= pviews.subrange(0, i as int).push(
                        pviews[i as int],
                    ));
                    lemma_path_entry_cands_push(
                        pviews.subrange(0, i as int),
                        cmd@,
                        pviews[i as int],
                    );
                }
                let t = trim_str(parts[i].as_str());
                if !t.as_str().is_empty() {
                    let mut entry = t;
                    entry.append("/");
                    entry.append(cmd);
                    proof {
                        assert(str_views(r@.push(entry)) =~= str_views(r@) + seq![entry@]);
                    }
                    r.push(entry);
                } else {
                    proof {
                        assert(str_views(r@) + Seq::<Seq<char>>::empty() =~= str_views(r@));
                    }
                }
                i = i + 1;
            }
            proof {
                assert(pviews.subrange(0, parts@.len() as int) =~= pviews);
            }
        },
    }
    r
}

fn mac_common(home: &Option<String>, cmd: &str) -> (r: Vec<String>)
    ensures
        str_views(r@) == mac_common_cands(*home, cmd@),
{
    let mut v: Vec<String> = Vec::new();
    v.push(concat2("/opt/homebrew/bin/", cmd));
    v.push(concat2("/usr/local/bin/", cmd));
    v.push(concat2("/usr/bin/", cmd));
    v.push(concat2("/bin/", cmd));
    match home {
        Some(h) => {
            v.push(concat3(h.as_str(), "/.npm-global/bin/", cmd));
            v.push(concat3(h.as_str(), "/bin/", cmd));
            v.push(concat3(h.as_str(), "/.nvm/current/bin/", cmd));
            v.push(concat3(h.as_str(), "/.volta/bin/", cmd));
            v.push(concat3(h.as_str(), "/Library/pnpm/", cmd));
        },
        None => {},
    }
    proof {
        assert(str_views(v@) =~= mac_common_cands(*home, cmd@));
    }
    v
}

fn mac_special(home: &Option<String>, cmd: &str, listings: &DirListings) -> (r: Vec<String>)
    ensures
        str_views(r@) == mac_special_cands(
            *home,
            cmd@,
            str_views(listings.nvm_node_dirs@),
            str_views(listings.cellar_ffmpeg_dirs@),
        ),
{
    let ghost spec_result = mac_special_cands(
        *home,
        cmd@,
        str_views(listings.nvm_node_dirs@),
        str_views(listings.cellar_ffmpeg_dirs@),
    );
    let mut v: Vec<String> = Vec::new();
    if str_eq(cmd, "node") {
        v.push(String::from_str("/Applications/Node.js/bin/node"));
        match home {
            Some(h) => {
                push_suffixed(&mut v, &listings.nvm_node_dirs, "/bin/node");
                proof {
                    assert(str_views(v@) =~= spec_result);
                }
            },
            None => {
                proof {
                    assert(str_views(v@) =~= spec_result);
                }
            },
        }
    } else if str_eq(cmd, "ffmpeg") {
        v.push(String::from_str("/opt/homebrew/bin/ffmpeg"));
        v.push(String::from_str("/usr/local/bin/ffmpeg"));
        v.push(String::from_str("/opt/homebrew/opt/ffmpeg/bin/ffmpeg"));
        v.push(String::from_str("/usr/local/opt/ffmpeg/bin/ffmpeg"));
        v.push(String::from_str("/Applications/FFmpeg/ffmpeg"));
        v.push(String::from_str("/Applications/FFmpeg/bin/ffmpeg"));
        v.push(String::from_str("/usr/local/Cellar/ffmpeg/*/bin/ffmpeg"));
        v.push(String::from_str("/opt/homebrew/Cellar/ffmpeg/*/bin/ffmpeg"));
        match home {
            Some(h) => {
                push_suffixed(&mut v, &listings.cellar_ffmpeg_dirs, "/bin/ffmpeg");
                let ghost mid = v@;
                let a = String::from_str("/opt/local/bin/ffmpeg");
                let b = concat2(h.as_str(), "/bin/ffmpeg");
                let c = concat2(h.as_str(), "/.local/bin/ffmpeg");
                let ghost tail = seq![a@, b@, c@];
                v.push(a);
                v.push(b);
                v.push(c);
                proof {
                    assert(str_views(v@) =~= str_views(mid) + tail);
                    assert(str_views(mid) + tail =~= spec_result);
                }
            },
            None => {
                proof {
                    assert(str_views(v@) =~= spec_result);
                }
            },
        }
    } else if str_eq(cmd, "pnpm") {
        match home {
            Some(h) => {
                v.push(concat2(h.as_str(), "/.local/share/pnpm/pnpm"));
                v.push(concat2(h.as_str(), "/Library/pnpm/pnpm"));
                v.push(concat2(h.as_str(), "/.npm-global/bin/pnpm"));
            },
            None => {},
        }
        v.push(String::from_str("/usr/local/lib/node_modules/pnpm/bin/pnpm.js"));
        v.push(String::from_str("/opt/homebrew/lib/node_modules/pnpm/bin/pnpm.js"));
        proof {
            assert(str_views(v@) =~= spec_result);
        }
    } else {
        proof {
            assert(str_views(v@) =~= spec_result);
        }
    }
    v
}

fn win_common(appdata: &Option<String>, userprofile: &Option<String>, cmd: &str) -> (r: Vec<
    String,
>)
    ensures
        str_views(r@) == win_common_cands(*appdata, *userprofile, cmd@),
{
    let mut v: Vec<String> = Vec::new();
    v.push(concat3("C:\\Program Files\\nodejs\\", cmd, ".exe"));
    v.push(concat3("C:\\Program Files (x86)\\nodejs\\", cmd, ".exe"));
    v.push(concat3("C:\\Windows\\System32\\", cmd, ".exe"));
    v.push(concat3("C:\\Windows\\", cmd, ".exe"));
    match appdata {
        Some(a) => {
            v.push(concat4(a.as_str(), "\\npm\\", cmd, ".cmd"));
            v.push(concat4(a.as_str(), "\\npm\\", cmd, ".exe"));
        },
        None => {},
    }
    match userprofile {
        Some(u) => {
            v.push(concat4(u.as_str(), "\\AppData\\Roaming\\npm\\", cmd, ".cmd"));
            v.push(concat4(u.as_str(), "\\AppData\\Roaming\\npm\\", cmd, ".exe"));
        },
        None => {},
    }
    proof {
        assert(str_views(v@) =~= win_common_cands(*appdata, *userprofile, cmd@));
    }
    v
}

fn win_special(appdata: &Option<String>, programdata: &Option<String>, cmd: &str) -> (r: Vec<
    String,
>)
    ensures
        str_views(r@) == win_special_cands(*appdata, *programdata, cmd@),
{
    let mut v: Vec<String> = Vec::new();
    if str_eq(cmd, "ffmpeg") {
        v.push(String::from_str("C:\\Program Files\\FFmpeg\\bin\\ffmpeg.exe"));
        v.push(String::from_str("C:\\Program Files (x86)\\FFmpeg\\bin\\ffmpeg.exe"));
        v.push(String::from_str("C:\\ffmpeg\\bin\\ffmpeg.exe"));
        match programdata {
            Some(p) => {
                v.push(concat2(p.as_str(), "\\chocolatey\\bin\\ffmpeg.exe"));
            },
            None => {},
        }
    } else if str_eq(cmd, "pnpm") {
        match appdata {
            Some(a) => {
                v.push(concat2(a.as_str(), "\\npm\\pnpm.cmd"));
            },
            None => {},
        }
    }
    proof {
        assert(str_views(v@) =~= win_special_cands(*appdata, *programdata, cmd@));
    }
    v
}

fn linux_common(home: &Option<String>, cmd: &str) -> (r: Vec<String>)
    ensures
        str_views(r@) == linux_common_cands(*home, cmd@),
{
    let mut v: Vec<String> = Vec::new();
    v.push(concat2("/usr/bin/", cmd));
    v.push(concat2("/usr/local/bin/", cmd));
    v.push(concat2("/bin/", cmd));
    v.push(concat2("/snap/bin/", cmd));
    v.push(concat2("/var/lib/flatpak/exports/bin/", cmd));
    match home {
        Some(h) => {
            v.push(concat3(h.as_str(), "/.local/bin/", cmd));
            v.push(concat3(h.as_str(), "/bin/", cmd));
            v.push(concat3(h.as_str(), "/.npm-global/bin/", cmd));
            v.push(concat3(h.as_str(), "/.nvm/current/bin/", cmd));
        },
        None => {},
    }
    proof {
        assert(str_views(v@) =~= linux_common_cands(*home, cmd@));
    }
    v
}

fn linux_special(home: &Option<String>, cmd: &str, listings: &DirListings) -> (r: Vec<String>)
    ensures
        str_views(r@) == linux_special_cands(*home, cmd@, str_views(listings.nvm_node_dirs@)),
{
    let mut v: Vec<String> = Vec::new();
    if str_eq(cmd, "node") {
        match home {
            Some(h) => {
                push_suffixed(&mut v, &listings.nvm_node_dirs, "/bin/node");
            },
            None => {},
        }
    } else if str_eq(cmd, "pnpm") {
        match home {
            Some(h) => {
                v.push(concat2(h.as_str(), "/.local/share/pnpm/pnpm"));
            },
            None => {},
        }
    }
    proof {
        assert(str_views(v@) =~= linux_special_cands(
            *home,
            cmd@,
            str_views(listings.nvm_node_dirs@),
        ));
    }
    v
}

/// The candidate filesystem locations for `command`, in preference order
/// and duplicate-free: the `PATH` entries, then the platform's well-known
/// install directories, then command-specific locations.
pub fn search_paths(
    platform: Platform,
    env: &EnvInfo,
    command: &str,
    listings: &DirListings,
) -> (r: Vec<String>)
    ensures
        str_views(r@) == search_paths_spec(platform, env, command@, listings),
{
    let sep = path_separator(platform);
    let mut cands = path_env_candidates(&env.path, sep, command);
    match platform {
        Platform::MacOs => {
            push_all(&mut cands, mac_common(&env.home, command));
            push_all(&mut cands, mac_special(&env.home, command, listings));
        },
        Platform::Windows => {
            push_all(&mut cands, win_common(&env.appdata, &env.userprofile, command));
            push_all(&mut cands, win_special(&env.appdata, &env.programdata, command));
        },
        Platform::Linux => {
            push_all(&mut cands, linux_common(&env.home, command));
            push_all(&mut cands, linux_special(&env.home, command, listings));
        },
        Platform::Other => {},
    }
    proof {
        assert(str_views(cands@) =~= search_path_candidates(platform, env, command@, listings));
    }
    dedup_paths(cands)
}

/// On every platform, the candidate list of [`search_paths`] is
/// duplicate-free and preserves first-seen order: distinct entries first
/// occur among the raw candidates in the same order.
pub proof fn lemma_search_paths_duplicate_free(
    platform: Platform,
    env: &EnvInfo,
    cmd: Seq<char>,
    listings: &DirListings,
)
    ensures
        forall|i: int, j: int|
            0 <= i < j < search_paths_spec(platform, env, cmd, listings).len()
                ==> search_paths_spec(platform, env, cmd, listings)[i] != search_paths_spec(
                platform,
                env,
                cmd,
                listings,
            )[j],
        forall|i: int, j: int|
            0 <= i < j < search_paths_spec(platform, env, cmd, listings).len()
                ==> first_occurrence(
                search_path_candidates(platform, env, cmd, listings),
                search_paths_spec(platform, env, cmd, listings)[i],
            ) < first_occurrence(
                search_path_candidates(platform, env, cmd, listings),
                search_paths_spec(platform, env, cmd, listings)[j],
            ),
{
    lemma_dedup_first_seen_order(search_path_candidates(platform, env, cmd, listings));
}

/// The path the shell-based `which`/`where` tier resolved: the trimmed
/// first result, if the process succeeded and its output is non-empty.
/// `where` on Windows prints one path per line, so only the first line of
/// the trimmed standard output is a path.
pub open spec fn shell_resolved_path(outcome: Option<ExecOutcome>) -> Option<Seq<char>> {
    match outcome {
        Some(o) => if o.success && trim_spec(o.stdout@).len() > 0 {
            Some(first_line_spec(trim_spec(o.stdout@)))
        } else {
            None
        },
        None => None,
    }
}

/// The first candidate whose filesystem check succeeded.
pub open spec fn first_usable(cands: Seq<Seq<char>>, usable: Seq<bool>) -> Option<Seq<char>>
    decreases cands.len(),
{
    if cands.len() == 0 || usable.len() == 0 {
        None
    } else if usable[0] {
        Some(cands[0])
    } else {
        first_usable(cands.drop_first(), usable.drop_first())
    }
}

proof fn lemma_first_usable_at(cands: Seq<Seq<char>>, usable: Seq<bool>, i: int)
    requires
        cands.len() == usable.len(),
        0 <= i < usable.len(),
        usable[i],
        forall|j: int| 0 <= j < i ==> !usable[j],
    ensures
        first_usable(cands, usable) == Some(cands[i]),
    decreases cands.len(),
{
    if i > 0 {
        lemma_first_usable_at(cands.drop_first(), usable.drop_first(), i - 1);
    }
}

proof fn lemma_first_usable_none(cands: Seq<Seq<char>>, usable: Seq<bool>)
    requires
        forall|j: int| 0 <= j < usable.len() ==> !usable[j],
    ensures
        first_usable(cands, usable) is None,
    decreases cands.len(),
{
    if cands.len() > 0 && usable.len() > 0 {
        lemma_first_usable_none(cands.drop_first(), usable.drop_first());
    }
}

/// What resolving a command name yields: the shell tier's answer if it gave
/// one, else the first usable filesystem candidate, else the bare command
/// name, deferring resolution to the shell at execution time.
pub open spec fn locate_spec(
    cmd: Seq<char>,
    which_outcome: Option<ExecOutcome>,
    cands: Seq<Seq<char>>,
    usable: Seq<bool>,
) -> Seq<char> {
    match shell_resolved_path(which_outcome) {
        Some(p) => p,
        None => match first_usable(cands, usable) {
            Some(p) => p,
            None => cmd,
        },
    }
}

fn shell_resolved(outcome: &Option<ExecOutcome>) -> (r: Option<String>)
    ensures
        r.deep_view() == shell_resolved_path(*outcome),
{
    match outcome {
        Some(o) => {
            if o.success {
                let t = trim_str(o.stdout.as_str());
                if !t.as_str().is_empty() {
                    first_line(t.as_str())
                } else {
                    None
                }
            } else {
                None
            }
        },
        None => None,
    }
}

/// Resolves a command name to a runnable path, first success wins: the
/// trimmed first result of the shell `which`/`where` run, then the first
/// candidate the filesystem layer marked usable (a readable regular file,
/// or merely present on Windows), then the bare command name itself. Never
/// fails: an unresolved command is returned unchanged for the shell to
/// find on `PATH`.
pub fn locate(
    command: &str,
    which_outcome: &Option<ExecOutcome>,
    candidates: &Vec<String>,
    usable: &Vec<bool>,
) -> (r: String)
    requires
        candidates@.len() == usable@.len(),
    ensures
        r@ == locate_spec(command@, *which_outcome, str_views(candidates@), usable@),
{
    let resolved = shell_resolved(which_outcome);
    match resolved {
        Some(t) => {
            return t;
        },
        None => {},
    }
    let mut i: usize = 0;
    while i < usable.len()
        invariant
            i <= usable@.len(),
            candidates@.len() == usable@.len(),
            shell_resolved_path(*which_outcome) is None,
            forall|j: int| 0 <= j < i ==> !usable@[j],
        decreases usable@.len() - i,
    {
        if usable[i] {
            proof {
                lemma_first_usable_at(str_views(candidates@), usable@, i as int);
                assert(str_views(candidates@)[i as int] == candidates@[i as int]@);
            }
            return candidates[i].clone();
        }
        i = i + 1;
    }
    proof {
        lemma_first_usable_none(str_views(candidates@), usable@);
    }
    command.to_owned()
}

/// A command guaranteed absent from every candidate and unresolved by the
/// shell is returned unchanged.
pub proof fn lemma_locate_unresolved(
    cmd: Seq<char>,
    which_outcome: Option<ExecOutcome>,
    cands: Seq<Seq<char>>,
    usable: Seq<bool>,
)
    requires
        shell_resolved_path(which_outcome) is None,
        forall|j: int| 0 <= j < usable.len() ==> !usable[j],
    ensures
        locate_spec(cmd, which_outcome, cands, usable) == cmd,
{
    lemma_first_usable_none(cands, usable);
}

/// The shell command line of the `which` tier: `where` on Windows, a
/// best-effort sourcing of the common shell profiles followed by `which`
/// elsewhere.
pub open spec fn which_command_line_spec(platform: Platform, cmd: Seq<char>) -> Seq<char> {
    if platform == Platform::Windows {
        "where "@ + cmd
    } else {
        profile_source_prefix_spec() + "which "@ + cmd
    }
}

/// The profile-sourcing preamble run before POSIX shell probes, so that
/// interactively configured `PATH` entries (such as Homebrew's) are
/// visible.
pub open spec fn profile_source_prefix_spec() -> Seq<char> {
    "source ~/.zshrc 2>/dev/null || true; source ~/.bash_profile 2>/dev/null || true; source ~/.profile 2>/dev/null || true; "@
}

/// Executable counterpart of [`profile_source_prefix_spec`].
pub fn profile_source_prefix() -> (r: &'static str)
    ensures
        r@ == profile_source_prefix_spec(),
{
    "source ~/.zshrc 2>/dev/null || true; source ~/.bash_profile 2>/dev/null || true; source ~/.profile 2>/dev/null || true; "
}

/// Executable counterpart of [`which_command_line_spec`].
pub fn which_command_line(platform: Platform, command: &str) -> (r: String)
    ensures
        r@ == which_command_line_spec(platform, command@),
{
    if platform == Platform::Windows {
        concat2("where ", command)
    } else {
        concat3(profile_source_prefix(), "which ", command)
    }
}

} // verus!
