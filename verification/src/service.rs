//! The background reminder service: its commands, the definition files it
//! installs (a launchd plist or a systemd unit), reading those files back,
//! judging the service's health, and the daemon's polling schedule.
//!
//! Probing the system (does the file exist, is the process running) and
//! driving `launchctl`/`systemctl` happen outside the library.

use vstd::prelude::*;
use crate::config::Config;
use crate::text::{
    drop_leading, drop_trailing, lemma_drop_leading_shape, lemma_drop_trailing_shape, space_pred, whitespace,
    chars_of, push_str, string_of, trim_chars, trimmed};

verus! {

/// Subcommands of `scribe service`.
#[derive(Debug, Clone, Copy, PartialEq, Eq)]
pub enum ServiceCommand {
    /// Run the reminder daemon in the foreground, polling every `interval`
    /// seconds (30 when `None`).
    Run { interval: Option<u64> },
    /// Install and start the service.
    Install,
    /// Stop and remove the service.
    Uninstall,
    /// Show whether the service is installed and running.
    Status,
    /// Restart the service.
    Restart,
    /// Reinstall the service definition, e.g. after an upgrade.
    Reinstall,
}

/// Subcommands of `scribe daemon`.
#[derive(Debug, Clone, Copy, PartialEq, Eq)]
pub enum DaemonCommand {
    /// Run the reminder daemon, polling every `interval` seconds (30 when
    /// `None`).
    Run { interval: Option<u64> },
    /// Restart the service.
    Restart,
    /// Reinstall the service definition.
    Reinstall,
}

/// The daemon's default seconds between reminder polls.
pub const DEFAULT_INTERVAL_SECS: u64 = 30;

/// The launchd label of the service.
pub open spec fn launchd_label() -> Seq<char> {
    "com.scribe.daemon"@
}

/// What the configuration and the system say of the service.
#[derive(Debug, Clone, Copy, PartialEq, Eq, Structural)]
pub struct ServiceState {
    /// The configuration records the service as installed.
    pub config_says_installed: bool,
    /// The service definition file exists.
    pub file_exists: bool,
    /// The daemon process is running.
    pub is_running: bool,
}

/// The verdict `scribe service status` gives.
#[derive(Debug, Clone, Copy, PartialEq, Eq, Structural)]
pub enum Diagnosis {
    /// Recorded as installed, but the definition file is missing.
    Broken,
    /// The definition file exists, but the service is not recorded as
    /// installed.
    Orphaned,
    /// Installed, but not running.
    Stopped,
    /// Every check passed.
    Healthy,
    /// Not installed, as expected.
    NotInstalled,
}

/// The verdict for a service state.
pub open spec fn diagnosis_of(s: ServiceState) -> Diagnosis {
    if s.config_says_installed && !s.file_exists {
        Diagnosis::Broken
    } else if !s.config_says_installed && s.file_exists {
        Diagnosis::Orphaned
    } else if s.config_says_installed && !s.is_running {
        Diagnosis::Stopped
    } else if s.config_says_installed == s.file_exists && s.config_says_installed == s.is_running {
        Diagnosis::Healthy
    } else {
        Diagnosis::NotInstalled
    }
}

impl ServiceState {
    /// The state from the configuration's record and the probed facts.
    pub fn check(config: &Config, file_exists: bool, is_running: bool) -> (r: ServiceState)
        ensures
            r.config_says_installed == config.setup.daemon_service_installed,
            r.file_exists == file_exists,
            r.is_running == is_running,
    {
        ServiceState {
            config_says_installed: config.setup.daemon_service_installed,
            file_exists,
            is_running,
        }
    }

    /// The record, the file and the process all agree.
    pub fn is_healthy(&self) -> (r: bool)
        ensures
            r == (self.config_says_installed == self.file_exists && self.config_says_installed
                == self.is_running),
    {
        self.config_says_installed == self.file_exists && self.config_says_installed == self.is_running
    }

    /// The record and the file disagree.
    pub fn has_discrepancy(&self) -> (r: bool)
        ensures
            r == (self.config_says_installed != self.file_exists),
    {
        self.config_says_installed != self.file_exists
    }

    /// The verdict `scribe service status` gives.
    pub fn diagnosis(&self) -> (r: Diagnosis)
        ensures
            r == diagnosis_of(*self),
    {
        if self.config_says_installed && !self.file_exists {
            Diagnosis::Broken
        } else if !self.config_says_installed && self.file_exists {
            Diagnosis::Orphaned
        } else if self.config_says_installed && !self.is_running {
            Diagnosis::Stopped
        } else if self.is_healthy() {
            Diagnosis::Healthy
        } else {
            Diagnosis::NotInstalled
        }
    }
}

/// A state is healthy exactly when the verdict says so, and a healthy
/// state has no discrepancy.
pub proof fn lemma_healthy_verdict(s: ServiceState)
    ensures
        (diagnosis_of(s) == Diagnosis::Healthy) <==> (s.config_says_installed == s.file_exists
            && s.config_says_installed == s.is_running),
        diagnosis_of(s) == Diagnosis::Healthy ==> s.config_says_installed == s.file_exists,
{
}

/// What `scribe service install` does.
#[derive(Debug, Clone, Copy, PartialEq, Eq, Structural)]
pub enum InstallStep {
    /// Installed and pointing at this binary: nothing to do.
    AlreadyCurrent,
    /// Recorded as installed, but the file is missing, points elsewhere or
    /// cannot be read: rewrite it and start the service.
    Repair,
    /// Not recorded as installed: install afresh.
    Install,
}

/// The step for the configuration's record `installed` and the check of
/// the definition file, `file_check`: whether it runs this binary, or
/// `None` when it could not be read.
pub open spec fn install_step_of(installed: bool, file_check: Option<bool>) -> InstallStep {
    if !installed {
        InstallStep::Install
    } else if file_check == Some(true) {
        InstallStep::AlreadyCurrent
    } else {
        InstallStep::Repair
    }
}

/// The step `scribe service install` takes, as [`install_step_of`] states:
/// skip when installed and current, repair when installed but stale or
/// unreadable, install otherwise.
pub fn install_step(installed: bool, file_check: Option<bool>) -> (r: InstallStep)
    ensures
        r == install_step_of(installed, file_check),
{
    if !installed {
        InstallStep::Install
    } else {
        match file_check {
            Some(true) => InstallStep::AlreadyCurrent,
            _ => InstallStep::Repair,
        }
    }
}

/// Position of the first occurrence of `p` in `s` at or after `k`, or -1.
pub open spec fn find_seq(s: Seq<char>, p: Seq<char>, k: int) -> int
    decreases s.len() + 1 - k,
{
    if k < 0 || k + p.len() > s.len() {
        -1
    } else if s.subrange(k, k + p.len()) == p {
        k
    } else {
        find_seq(s, p, k + 1)
    }
}

/// `s` contains `p`.
pub open spec fn contains_seq(s: Seq<char>, p: Seq<char>) -> bool {
    find_seq(s, p, 0) >= 0
}

/// The search from `k` finds `p` exactly when it occurs at or after `k`.
proof fn lemma_find_seq_occurs(s: Seq<char>, p: Seq<char>, k: int)
    requires
        k >= 0,
    ensures
        find_seq(s, p, k) >= 0 <==> exists|i: int|
            k <= i && i + p.len() <= s.len() && #[trigger] s.subrange(i, i + p.len()) == p,
    decreases s.len() + 1 - k,
{
    if k + p.len() > s.len() {
    } else if s.subrange(k, k + p.len()) == p {
    } else {
        lemma_find_seq_occurs(s, p, k + 1);
        if exists|i: int| k <= i && i + p.len() <= s.len() && #[trigger] s.subrange(i, i + p.len()) == p {
            let i = choose|i: int| k <= i && i + p.len() <= s.len() && #[trigger] s.subrange(i, i + p.len()) == p;
            assert(i != k);
        }
    }
}

/// `s` contains `p` exactly when `p` occurs in it at some position.
pub proof fn law_contains_is_occurrence(s: Seq<char>, p: Seq<char>)
    ensures
        contains_seq(s, p) <==> exists|i: int|
            0 <= i && i + p.len() <= s.len() && #[trigger] s.subrange(i, i + p.len()) == p,
{
    lemma_find_seq_occurs(s, p, 0);
}

/// `s` starts with `p`.
pub open spec fn begins(s: Seq<char>, p: Seq<char>) -> bool {
    p.len() <= s.len() && s.take(p.len() as int) == p
}

/// A line without its trailing carriage return.
pub open spec fn strip_cr(l: Seq<char>) -> Seq<char> {
    if l.len() > 0 && l.last() == '\r' { l.drop_last() } else { l }
}

/// The lines of `s` from `k`, as `str::lines` gives them: split at line
/// feeds, each without a trailing carriage return, and no empty last line
/// after a final line feed.
pub open spec fn lines_from(s: Seq<char>, k: int) -> Seq<Seq<char>>
    decreases s.len() - k,
{
    if k < 0 || k >= s.len() {
        Seq::empty()
    } else {
        let e = find_seq(s, seq!['\n'], k);
        if e < 0 {
            seq![strip_cr(s.subrange(k, s.len() as int))]
        } else {
            proof {
                lemma_find_seq(s, seq!['\n'], k);
            }
            seq![strip_cr(s.subrange(k, e))] + lines_from(s, e + 1)
        }
    }
}

/// The lines of `s`.
pub open spec fn lines(s: Seq<char>) -> Seq<Seq<char>> {
    lines_from(s, 0)
}

/// A found occurrence lies within the text, at or after where the search
/// started, and no earlier position from there matches.
pub proof fn lemma_find_seq(s: Seq<char>, p: Seq<char>, k: int)
    requires
        0 <= k,
    ensures
        find_seq(s, p, k) >= 0 ==> k <= find_seq(s, p, k) && find_seq(s, p, k) + p.len() <= s.len()
            && s.subrange(find_seq(s, p, k), find_seq(s, p, k) + p.len()) == p,
        forall|j: int| k <= j && j + p.len() <= s.len() && (find_seq(s, p, k) < 0 || j < find_seq(s, p, k))
            ==> #[trigger] s.subrange(j, j + p.len()) != p,
    decreases s.len() + 1 - k,
{
    if k + p.len() <= s.len() && s.subrange(k, k + p.len()) != p {
        lemma_find_seq(s, p, k + 1);
    }
}

/// The `ExecStart` value of a systemd unit: the first line whose trimmed
/// text starts with `ExecStart=`, after that prefix, trimmed.
pub open spec fn exec_start_from(ls: Seq<Seq<char>>, i: int) -> Option<Seq<char>>
    decreases ls.len() - i,
{
    if i < 0 || i >= ls.len() {
        None
    } else if begins(trimmed(ls[i]), "ExecStart="@) {
        Some(trimmed(trimmed(ls[i]).skip(10)))
    } else {
        exec_start_from(ls, i + 1)
    }
}

/// The first `ProgramArguments` string of a launchd plist, scanning lines
/// from `i`: after a line mentioning `ProgramArguments`, an `<array>` line
/// opens the list, a `</array>` line ends the search, and the first
/// `<string>…</string>` line inside the list gives the value.
pub open spec fn plist_scan(ls: Seq<Seq<char>>, i: int, in_args: bool, in_array: bool) -> Option<Seq<char>>
    decreases ls.len() - i,
{
    if i < 0 || i >= ls.len() {
        None
    } else {
        let t = trimmed(ls[i]);
        if contains_seq(t, "ProgramArguments"@) {
            plist_scan(ls, i + 1, true, in_array)
        } else if in_args && begins(t, "<array>"@) {
            plist_scan(ls, i + 1, in_args, true)
        } else if in_args && begins(t, "</array>"@) {
            None
        } else if in_args && in_array && begins(t, "<string>"@) && find_seq(t, "</string>"@, 0) >= 0 {
            Some(t.subrange(8, find_seq(t, "</string>"@, 0)))
        } else {
            plist_scan(ls, i + 1, in_args, in_array)
        }
    }
}

/// Position of the first `p` in `s` at or after `k`.
fn find_in(s: &Vec<char>, p: &Vec<char>, k: usize) -> (r: Option<usize>)
    requires
        k <= s.len(),
    ensures
        match r {
            Some(i) => i == find_seq(s@, p@, k as int),
            None => find_seq(s@, p@, k as int) < 0,
        },
{
    let mut i: usize = k;
    if p.len() > s.len() {
        proof {
            assert(find_seq(s@, p@, k as int) < 0);
        }
        return None;
    }
    while i <= s.len() - p.len()
        invariant
            k <= i,
            p.len() <= s.len(),
            i <= s.len(),
            find_seq(s@, p@, k as int) == find_seq(s@, p@, i as int),
        decreases s.len() - i,
    {
        let mut j: usize = 0;
        let mut same = true;
        while j < p.len()
            invariant
                0 <= j <= p.len(),
                i + p.len() <= s.len(),
                same == (forall|m: int| 0 <= m < j ==> s@[i + m] == p@[m]),
            decreases p.len() - j,
        {
            if s[i + j] != p[j] {
                same = false;
            }
            j = j + 1;
        }
        if same {
            assert(s@.subrange(i as int, i + p.len()) =~= p@);
            return Some(i);
        } else {
            let ghost m = choose|m: int| 0 <= m < p.len() && s@[i + m] != p@[m];
            assert(s@.subrange(i as int, i + p.len())[m] != p@[m]);
        }
        i = i + 1;
    }
    None
}

/// The lines of `content`, as `str::lines` gives them.
pub fn split_lines(content: &str) -> (r: Vec<Vec<char>>)
    ensures
        r@.map_values(|l: Vec<char>| l@) == lines(content@),
{
    let s = chars_of(content);
    let nl: Vec<char> = vec!['\n'];
    assert(nl@ =~= seq!['\n']);
    let mut out: Vec<Vec<char>> = Vec::new();
    let mut k: usize = 0;
    while k < s.len()
        invariant
            s@ == content@,
            nl@ == seq!['\n'],
            0 <= k <= s.len(),
            out@.map_values(|l: Vec<char>| l@) + lines_from(s@, k as int) == lines(content@),
        decreases s.len() - k,
    {
        let end = match find_in(&s, &nl, k) {
            Some(e) => e,
            None => s.len(),
        };
        proof {
            lemma_find_seq(s@, seq!['\n'], k as int);
        }
        let mut line: Vec<char> = Vec::new();
        let mut i: usize = k;
        while i < end
            invariant
                k <= i <= end,
                end <= s.len(),
                line@ == s@.subrange(k as int, i as int),
            decreases end - i,
        {
            line.push(s[i]);
            i = i + 1;
            assert(s@.subrange(k as int, i as int) =~= s@.subrange(k as int, i - 1).push(s@[i - 1]));
        }
        let ghost raw = line@;
        if line.len() > 0 && line[line.len() - 1] == '\r' {
            line.pop();
            assert(line@ =~= raw.drop_last());
        }
        let ghost before = out@.map_values(|l: Vec<char>| l@);
        out.push(line);
        proof {
            assert(out@.map_values(|l: Vec<char>| l@) =~= before.push(strip_cr(raw)));
        }
        if end < s.len() {
            proof {
                assert(before.push(strip_cr(raw)) + lines_from(s@, end + 1) =~= before + lines_from(s@, k as int));
            }
            k = end + 1;
        } else {
            proof {
                assert(lines_from(s@, s.len() as int) =~= Seq::<Seq<char>>::empty());
                assert(before.push(strip_cr(raw)) + lines_from(s@, s.len() as int) =~= before + lines_from(s@, k as int));
            }
            k = end;
        }
    }
    proof {
        assert(out@.map_values(|l: Vec<char>| l@) + Seq::<Seq<char>>::empty() =~= out@.map_values(|l: Vec<char>| l@));
    }
    out
}

/// The characters of `s` before `k`, from `from`.
fn slice(s: &Vec<char>, from: usize, to: usize) -> (r: Vec<char>)
    requires
        from <= to <= s.len(),
    ensures
        r@ == s@.subrange(from as int, to as int),
{
    let mut out: Vec<char> = Vec::new();
    let mut i: usize = from;
    while i < to
        invariant
            from <= i <= to,
            to <= s.len(),
            out@ == s@.subrange(from as int, i as int),
        decreases to - i,
    {
        out.push(s[i]);
        i = i + 1;
        assert(s@.subrange(from as int, i as int) =~= s@.subrange(from as int, i - 1).push(s@[i - 1]));
    }
    out
}

/// The trimmed form of the characters `v`.
fn trim_vec(v: &Vec<char>) -> (r: Vec<char>)
    ensures
        r@ == trimmed(v@),
{
    let s = string_of(v);
    trim_chars(s.as_str())
}

/// Reads the `ExecStart` value of a systemd unit file.
pub fn parse_systemd_exec_start(content: &str) -> (r: Option<String>)
    ensures
        match r {
            Some(v) => exec_start_from(lines(content@), 0) == Some(v@),
            None => exec_start_from(lines(content@), 0) is None,
        },
{
    let ls = split_lines(content);
    let ghost lv = ls@.map_values(|l: Vec<char>| l@);
    let prefix = chars_of("ExecStart=");
    proof {
        reveal_strlit("ExecStart=");
    }
    let mut i: usize = 0;
    while i < ls.len()
        invariant
            lv == ls@.map_values(|l: Vec<char>| l@),
            lv == lines(content@),
            prefix@ == "ExecStart="@,
            prefix@.len() == 10,
            0 <= i <= ls.len(),
            exec_start_from(lv, 0) == exec_start_from(lv, i as int),
        decreases ls.len() - i,
    {
        let t = trim_vec(&ls[i]);
        let mut starts = t.len() >= prefix.len();
        if starts {
            let head = slice(&t, 0, prefix.len());
            starts = crate::text::chars_eq(&head, &prefix);
            proof {
                assert(t@.take(10) =~= head@);
            }
        }
        if starts {
            let rest = slice(&t, prefix.len(), t.len());
            assert(rest@ =~= t@.skip(10));
            let v = trim_vec(&rest);
            return Some(string_of(&v));
        }
        i = i + 1;
    }
    None
}

/// Reads the first `ProgramArguments` string of a launchd plist.
pub fn parse_plist_program_arguments(content: &str) -> (r: Option<String>)
    ensures
        match r {
            Some(v) => plist_scan(lines(content@), 0, false, false) == Some(v@),
            None => plist_scan(lines(content@), 0, false, false) is None,
        },
{
    let ls = split_lines(content);
    let ghost lv = ls@.map_values(|l: Vec<char>| l@);
    let key = chars_of("ProgramArguments");
    let open = chars_of("<array>");
    let close = chars_of("</array>");
    let sopen = chars_of("<string>");
    let sclose = chars_of("</string>");
    proof {
        reveal_strlit("<array>");
        reveal_strlit("</array>");
        reveal_strlit("<string>");
    }
    let mut in_args = false;
    let mut in_array = false;
    let mut i: usize = 0;
    while i < ls.len()
        invariant
            lv == ls@.map_values(|l: Vec<char>| l@),
            lv == lines(content@),
            key@ == "ProgramArguments"@,
            open@ == "<array>"@,
            close@ == "</array>"@,
            sopen@ == "<string>"@,
            sclose@ == "</string>"@,
            0 <= i <= ls.len(),
            plist_scan(lv, 0, false, false) == plist_scan(lv, i as int, in_args, in_array),
        decreases ls.len() - i,
    {
        let t = trim_vec(&ls[i]);
        if find_in(&t, &key, 0).is_some() {
            in_args = true;
        } else if in_args && begins_with(&t, &open) {
            in_array = true;
        } else if in_args && begins_with(&t, &close) {
            return None;
        } else if in_args && in_array && begins_with(&t, &sopen) {
            match find_in(&t, &sclose, 0) {
                Some(end) => {
                    proof {
                        lemma_find_seq(t@, sclose@, 0);
                        lemma_string_close_after_open(t@);
                    }
                    let v = slice(&t, 8, end);
                    return Some(string_of(&v));
                },
                None => {},
            }
        }
        i = i + 1;
    }
    None
}

/// In a line starting with `<string>`, `</string>` cannot start before
/// position eight.
proof fn lemma_string_close_after_open(t: Seq<char>)
    requires
        begins(t, "<string>"@),
        find_seq(t, "</string>"@, 0) >= 0,
    ensures
        find_seq(t, "</string>"@, 0) >= 8,
{
    reveal_strlit("<string>");
    reveal_strlit("</string>");
    lemma_find_seq(t, "</string>"@, 0);
    let e = find_seq(t, "</string>"@, 0);
    if e < 8 {
        assert(t.subrange(e, e + 9)[0] == '<');
        assert(t.subrange(e, e + 9)[1] == '/');
        assert(t[e] == '<' && t[e + 1] == '/');
        assert(t.take(8)[e] == t[e]);
        if e + 1 < 8 {
            assert(t.take(8)[e + 1] == t[e + 1]);
        }
    }
}

/// Whether `s` starts with `p`.
fn begins_with(s: &Vec<char>, p: &Vec<char>) -> (r: bool)
    ensures
        r == begins(s@, p@),
{
    if p.len() > s.len() {
        return false;
    }
    let head = slice(s, 0, p.len());
    assert(s@.take(p@.len() as int) =~= head@);
    crate::text::chars_eq(&head, p)
}

/// The systemd unit that runs `binary service run` in the user session.
pub open spec fn systemd_unit(binary: Seq<char>) -> Seq<char> {
    "[Unit]\nDescription=Scribe reminder notification daemon\nAfter=graphical-session.target\n\n[Service]\nExecStart="@
        + binary
        + " service run\nRestart=on-failure\n\n[Install]\nWantedBy=default.target\n"@
}

/// The systemd unit that runs `binary service run` in the user session.
pub fn generate_systemd_unit(binary: &str) -> (r: String)
    ensures
        r@ == systemd_unit(binary@),
{
    let mut out: Vec<char> = Vec::new();
    push_str(&mut out, "[Unit]\nDescription=Scribe reminder notification daemon\nAfter=graphical-session.target\n\n[Service]\nExecStart=");
    push_str(&mut out, binary);
    push_str(&mut out, " service run\nRestart=on-failure\n\n[Install]\nWantedBy=default.target\n");
    string_of(&out)
}

/// Line `a`, a line feed, then `r`.
pub open spec fn line_then(a: Seq<char>, r: Seq<char>) -> Seq<char> {
    a + seq!['\n'] + r
}

/// The plist from the line naming the binary on.
pub open spec fn tail_lines(binary: Seq<char>, home: Seq<char>) -> Seq<char> {
    "    <string>"@ + binary + "</string>\n    <string>service</string>\n    <string>run</string>\n  </array>\n  <key>RunAtLoad</key>\n  <true/>\n  <key>KeepAlive</key>\n  <true/>\n  <key>StandardOutPath</key>\n  <string>"@ + home + "/Library/Logs/scribe-daemon.log</string>\n  <key>StandardErrorPath</key>\n  <string>"@ + home + "/Library/Logs/scribe-daemon.log</string>\n</dict>\n</plist>\n"@
}

/// The launchd plist that keeps `binary service run` alive at login and
/// logs under `home`.
pub open spec fn launchd_plist(binary: Seq<char>, home: Seq<char>) -> Seq<char> {
    line_then("<?xml version=\"1.0\" encoding=\"UTF-8\"?>"@,
        line_then("<!DOCTYPE plist PUBLIC \"-//Apple//DTD PLIST 1.0//EN\""@,
            line_then("  \"http://www.apple.com/DTDs/PropertyList-1.0.dtd\">"@,
                line_then("<plist version=\"1.0\">"@,
                    line_then("<dict>"@,
                        line_then("  <key>Label</key>"@,
                            line_then("  <string>com.scribe.daemon</string>"@,
                                line_then("  <key>ProgramArguments</key>"@,
                                    line_then("  <array>"@,
                                        tail_lines(binary, home))))))))))
}

/// The launchd plist that keeps `binary service run` alive at login and
/// logs under `home`.
pub fn generate_launchd_plist(binary: &str, home: &str) -> (r: String)
    ensures
        r@ == launchd_plist(binary@, home@),
{
    let mut out: Vec<char> = Vec::new();
    push_str(&mut out, "<?xml version=\"1.0\" encoding=\"UTF-8\"?>");
    out.push('\n');
    push_str(&mut out, "<!DOCTYPE plist PUBLIC \"-//Apple//DTD PLIST 1.0//EN\"");
    out.push('\n');
    push_str(&mut out, "  \"http://www.apple.com/DTDs/PropertyList-1.0.dtd\">");
    out.push('\n');
    push_str(&mut out, "<plist version=\"1.0\">");
    out.push('\n');
    push_str(&mut out, "<dict>");
    out.push('\n');
    push_str(&mut out, "  <key>Label</key>");
    out.push('\n');
    push_str(&mut out, "  <string>com.scribe.daemon</string>");
    out.push('\n');
    push_str(&mut out, "  <key>ProgramArguments</key>");
    out.push('\n');
    push_str(&mut out, "  <array>");
    out.push('\n');
    push_str(&mut out, "    <string>");
    push_str(&mut out, binary);
    push_str(&mut out, "</string>\n    <string>service</string>\n    <string>run</string>\n  </array>\n  <key>RunAtLoad</key>\n  <true/>\n  <key>KeepAlive</key>\n  <true/>\n  <key>StandardOutPath</key>\n  <string>");
    push_str(&mut out, home);
    push_str(&mut out, "/Library/Logs/scribe-daemon.log</string>\n  <key>StandardErrorPath</key>\n  <string>");
    push_str(&mut out, home);
    push_str(&mut out, "/Library/Logs/scribe-daemon.log</string>\n</dict>\n</plist>\n");
    assert(out@ =~= launchd_plist(binary@, home@));
    string_of(&out)
}

/// Whether `s` contains `q`.
pub fn contains_str(s: &str, q: &str) -> (r: bool)
    ensures
        r == contains_seq(s@, q@),
{
    let a = chars_of(s);
    let b = chars_of(q);
    find_in(&a, &b, 0).is_some()
}

/// Whether a systemd unit's `ExecStart` runs the service from `binary`.
pub fn unit_runs_binary(exec_start: &str, binary: &str) -> (r: bool)
    ensures
        r == (begins(exec_start@, binary@) && contains_seq(exec_start@, " service run"@)),
{
    let e = chars_of(exec_start);
    let b = chars_of(binary);
    let needle = chars_of(" service run");
    begins_with(&e, &b) && find_in(&e, &needle, 0).is_some()
}

/// Whether a unit file's content runs the service from `binary`: it has an
/// `ExecStart` that starts with the binary and runs `service run`.
pub fn unit_file_is_current(content: &str, binary: &str) -> (r: bool)
    ensures
        r == (exec_start_from(lines(content@), 0) matches Some(v) && begins(v, binary@)
            && contains_seq(v, " service run"@)),
{
    match parse_systemd_exec_start(content) {
        Some(v) => unit_runs_binary(v.as_str(), binary),
        None => false,
    }
}

/// Whether a plist's content runs the service from `binary`: its first
/// program argument is exactly the binary.
pub fn plist_file_is_current(content: &str, binary: &str) -> (r: bool)
    ensures
        r == (plist_scan(lines(content@), 0, false, false) == Some(binary@)),
{
    match parse_plist_program_arguments(content) {
        Some(v) => crate::text::str_eq(v.as_str(), binary),
        None => false,
    }
}

/// The daemon's two timers, as times in milliseconds of a monotonic clock
/// when each last ran (`None`: not yet).
#[derive(Debug, Clone, Copy, PartialEq, Eq, Structural)]
pub struct DaemonTimers {
    /// Milliseconds between reminder polls.
    pub reminder_every: u64,
    /// Milliseconds between sync cycles.
    pub sync_every: u64,
    /// Whether sync runs at all.
    pub sync_enabled: bool,
    /// When reminders were last polled.
    pub last_reminder: Option<u64>,
    /// When sync last ran.
    pub last_sync: Option<u64>,
}

/// What one tick of the daemon does.
#[derive(Debug, Clone, Copy, PartialEq, Eq, Structural)]
pub struct TickActions {
    /// Poll and fire due reminders.
    pub check_reminders: bool,
    /// Run one sync cycle.
    pub run_sync: bool,
}

/// A timer that last ran at `last` is due at `now` after `every`
/// milliseconds; one that never ran is due at once. A clock that went
/// backwards counts as no time passed.
pub open spec fn timer_due(last: Option<u64>, now: u64, every: u64) -> bool {
    match last {
        None => true,
        Some(t) => (if now >= t { now - t } else { 0 }) >= every,
    }
}

/// The seconds between reminder polls: the given interval, or 30.
pub fn reminder_interval(interval: Option<u64>) -> (r: u64)
    ensures
        r == match interval { Some(i) => i, None => DEFAULT_INTERVAL_SECS },
{
    match interval {
        Some(i) => i,
        None => DEFAULT_INTERVAL_SECS,
    }
}

impl DaemonTimers {
    /// Timers that have not run yet.
    pub fn new(reminder_every: u64, sync_every: u64, sync_enabled: bool) -> (r: DaemonTimers)
        ensures
            r == (DaemonTimers { reminder_every, sync_every, sync_enabled, last_reminder: None, last_sync: None }),
    {
        DaemonTimers { reminder_every, sync_every, sync_enabled, last_reminder: None, last_sync: None }
    }

    /// One tick at `now`: polls reminders when their timer is due, runs
    /// sync when it is enabled and due, and restarts each timer that ran.
    pub fn tick(&mut self, now: u64) -> (r: TickActions)
        ensures
            r.check_reminders == timer_due(old(self).last_reminder, now, old(self).reminder_every),
            r.run_sync == (old(self).sync_enabled && timer_due(old(self).last_sync, now, old(self).sync_every)),
            final(self).last_reminder == (if r.check_reminders { Some(now) } else { old(self).last_reminder }),
            final(self).last_sync == (if r.run_sync { Some(now) } else { old(self).last_sync }),
            final(self).reminder_every == old(self).reminder_every,
            final(self).sync_every == old(self).sync_every,
            final(self).sync_enabled == old(self).sync_enabled,
    {
        let check_reminders = match self.last_reminder {
            None => true,
            Some(t) => (if now >= t { now - t } else { 0 }) >= self.reminder_every,
        };
        let run_sync = self.sync_enabled && match self.last_sync {
            None => true,
            Some(t) => (if now >= t { now - t } else { 0 }) >= self.sync_every,
        };
        if check_reminders {
            self.last_reminder = Some(now);
        }
        if run_sync {
            self.last_sync = Some(now);
        }
        TickActions { check_reminders, run_sync }
    }
}

/// Right after the reminder timer runs, it is not due again until its
/// interval has passed (for a positive interval).
pub proof fn lemma_tick_spacing(t: DaemonTimers, now: u64, later: u64)
    requires
        t.reminder_every > 0,
        now <= later < now + t.reminder_every,
    ensures
        !timer_due(Some(now), later, t.reminder_every),
{
}

/// The two timers run independently: whether reminders are polled at
/// `now` depends only on the reminder timer, and whether sync runs only on
/// the sync timer; and once a timer runs, it is due again exactly when its
/// interval has passed on a clock that did not go backwards.
pub proof fn law_timers_independent(a: DaemonTimers, b: DaemonTimers, now: u64, later: u64)
    ensures
        a.last_reminder == b.last_reminder && a.reminder_every == b.reminder_every ==> timer_due(
            a.last_reminder,
            now,
            a.reminder_every,
        ) == timer_due(b.last_reminder, now, b.reminder_every),
        a.sync_enabled == b.sync_enabled && a.last_sync == b.last_sync && a.sync_every == b.sync_every ==> (
        a.sync_enabled && timer_due(a.last_sync, now, a.sync_every)) == (b.sync_enabled && timer_due(
            b.last_sync,
            now,
            b.sync_every,
        )),
        now <= later ==> (timer_due(Some(now), later, a.reminder_every) <==> later - now >= a.reminder_every),
        now <= later ==> (timer_due(Some(now), later, a.sync_every) <==> later - now >= a.sync_every),
{
}

/// The first line feed at or after `k` is at `e`.
proof fn lemma_first_newline(s: Seq<char>, k: int, e: int)
    requires
        0 <= k <= e < s.len(),
        s[e] == '\n',
        forall|j: int| k <= j < e ==> s[j] != '\n',
    ensures
        find_seq(s, seq!['\n'], k) == e,
        lines_from(s, k) == seq![strip_cr(s.subrange(k, e))] + lines_from(s, e + 1),
    decreases e - k,
{
    assert(s.subrange(k, k + 1)[0] == s[k]);
    if k < e {
        assert(s.subrange(k, k + 1) != seq!['\n']);
        lemma_first_newline(s, k + 1, e);
    } else {
        assert(s.subrange(k, k + 1) =~= seq!['\n']);
    }
}

/// An occurrence of `p` at `j`, at or after `k`, is found.
proof fn lemma_found(s: Seq<char>, p: Seq<char>, k: int, j: int)
    requires
        0 <= k <= j,
        j + p.len() <= s.len(),
        s.subrange(j, j + p.len()) == p,
    ensures
        find_seq(s, p, k) >= 0,
    decreases j - k,
{
    if k < j && s.subrange(k, k + p.len()) != p {
        lemma_found(s, p, k + 1, j);
    }
}

/// Text whose ends are not whitespace is its own trimmed form.
proof fn lemma_trimmed_self(s: Seq<char>)
    requires
        s.len() > 0,
        !whitespace(s[0]),
        !whitespace(s.last()),
    ensures
        trimmed(s) == s,
{
    assert(drop_leading(s, space_pred()) == s);
    assert(drop_trailing(s, space_pred()) == s);
}

/// The unit written for `binary` reads back as running that binary:
/// [`parse_systemd_exec_start`] of what [`generate_systemd_unit`] writes
/// (whose contracts are [`exec_start_from`] of the [`lines`] and
/// [`systemd_unit`]) is the binary followed by ` service run`, so
/// [`unit_file_is_current`] holds of it. The binary is a non-empty path on
/// one line that does not start with whitespace.
pub proof fn law_systemd_unit_round_trip(binary: Seq<char>)
    requires
        binary.len() > 0,
        !whitespace(binary[0]),
        forall|j: int| 0 <= j < binary.len() ==> binary[j] != '\n',
    ensures
        exec_start_from(lines(systemd_unit(binary)), 0) == Some(binary + " service run"@),
        begins(binary + " service run"@, binary),
        contains_seq(binary + " service run"@, " service run"@),
{
    let pre = "[Unit]\nDescription=Scribe reminder notification daemon\nAfter=graphical-session.target\n\n[Service]\nExecStart="@;
    let post = " service run\nRestart=on-failure\n\n[Install]\nWantedBy=default.target\n"@;
    reveal_strlit("[Unit]\nDescription=Scribe reminder notification daemon\nAfter=graphical-session.target\n\n[Service]\nExecStart=");
    reveal_strlit(" service run\nRestart=on-failure\n\n[Install]\nWantedBy=default.target\n");
    reveal_strlit(" service run");
    reveal_strlit("ExecStart=");
    let m = binary.len() as int;
    let u = systemd_unit(binary);
    assert(u == pre + binary + post);
    assert(pre.len() == 107 && post.len() == 67);
    assert forall|j: int| 0 <= j < 107 implies u[j] == pre[j] by {}
    assert forall|j: int| 107 <= j < 107 + m implies u[j] == binary[j - 107] by {}
    assert forall|j: int| 107 + m <= j < 174 + m implies u[j] == post[j - 107 - m] by {}
    lemma_first_newline(u, 0, 6);
    lemma_first_newline(u, 7, 54);
    lemma_first_newline(u, 55, 85);
    lemma_first_newline(u, 86, 86);
    lemma_first_newline(u, 87, 96);
    lemma_first_newline(u, 97, 119 + m);
    let l5 = u.subrange(97, 119 + m);
    let v = binary + " service run"@;
    assert(l5 =~= "ExecStart="@ + v);
    assert(strip_cr(l5) == l5);
    let ls = lines(u);
    assert(ls[0] == strip_cr(u.subrange(0, 6)));
    assert(ls[1] == strip_cr(u.subrange(7, 54)));
    assert(ls[2] == strip_cr(u.subrange(55, 85)));
    assert(ls[3] == strip_cr(u.subrange(86, 86)));
    assert(ls[4] == strip_cr(u.subrange(87, 96)));
    assert(ls[5] == l5);
    lemma_trimmed_self(u.subrange(0, 6));
    lemma_trimmed_self(u.subrange(7, 54));
    lemma_trimmed_self(u.subrange(55, 85));
    assert(u.subrange(86, 86) =~= Seq::<char>::empty());
    assert(trimmed(Seq::<char>::empty()) =~= Seq::<char>::empty());
    lemma_trimmed_self(u.subrange(87, 96));
    assert(!begins(trimmed(ls[0]), "ExecStart="@));
    assert(trimmed(ls[1]).take(10)[0] != "ExecStart="@[0]);
    assert(!begins(trimmed(ls[1]), "ExecStart="@));
    assert(trimmed(ls[2]).take(10)[0] != "ExecStart="@[0]);
    assert(!begins(trimmed(ls[2]), "ExecStart="@));
    assert(!begins(trimmed(ls[3]), "ExecStart="@));
    assert(!begins(trimmed(ls[4]), "ExecStart="@));
    lemma_trimmed_self(l5);
    assert(l5.take(10) =~= "ExecStart="@);
    assert(l5.skip(10) =~= v);
    lemma_trimmed_self(v);
    assert(ls.len() > 5);
    assert(exec_start_from(ls, 5) == Some(v));
    assert(exec_start_from(ls, 4) == Some(v));
    assert(exec_start_from(ls, 3) == Some(v));
    assert(exec_start_from(ls, 2) == Some(v));
    assert(exec_start_from(ls, 1) == Some(v));
    assert(exec_start_from(ls, 0) == Some(v));
    assert(v.take(m) =~= binary);
    assert(v.subrange(m, m + 12) =~= " service run"@);
    lemma_found(v, " service run"@, 0, m);
}

/// Searching `p + r` past `p` finds what searching `r` finds, shifted.
proof fn lemma_find_shift(p: Seq<char>, r: Seq<char>, q: Seq<char>, j: int)
    requires
        0 <= j,
    ensures
        find_seq(p + r, q, p.len() + j) == if find_seq(r, q, j) < 0 { -1 } else { p.len() + find_seq(r, q, j) },
    decreases r.len() + 1 - j,
{
    let s = p + r;
    if j + q.len() <= r.len() {
        assert(s.subrange(p.len() + j, p.len() + j + q.len()) =~= r.subrange(j, j + q.len()));
        lemma_find_shift(p, r, q, j + 1);
    }
}

/// The lines of `p + r` past `p` are the lines of `r`.
proof fn lemma_lines_shift(p: Seq<char>, r: Seq<char>, j: int)
    requires
        0 <= j,
    ensures
        lines_from(p + r, p.len() + j) == lines_from(r, j),
    decreases r.len() - j,
{
    let s = p + r;
    if j < r.len() {
        lemma_find_shift(p, r, seq!['\n'], j);
        let e = find_seq(r, seq!['\n'], j);
        if e < 0 {
            assert(s.subrange(p.len() + j, s.len() as int) =~= r.subrange(j, r.len() as int));
        } else {
            lemma_find_seq(r, seq!['\n'], j);
            assert(s.subrange(p.len() + j, p.len() + e) =~= r.subrange(j, e));
            lemma_lines_shift(p, r, e + 1);
        }
    }
}

/// A line without line feeds, a line feed, then more: the first line, then
/// the lines of the rest.
proof fn lemma_lines_cons(a: Seq<char>, r: Seq<char>)
    requires
        forall|j: int| 0 <= j < a.len() ==> a[j] != '\n',
    ensures
        lines(line_then(a, r)) == seq![strip_cr(a)] + lines(r),
{
    let s = line_then(a, r);
    let p = a + seq!['\n'];
    assert(s == p + r);
    assert forall|j: int| 0 <= j < a.len() implies s[j] != '\n' by {
        assert(s[j] == a[j]);
    }
    lemma_first_newline(s, 0, a.len() as int);
    assert(s.subrange(0, a.len() as int) =~= a);
    lemma_lines_shift(p, r, 0);
}

/// `p` first occurs in `s`, from `k` on, at `e`.
proof fn lemma_first_at(s: Seq<char>, p: Seq<char>, k: int, e: int)
    requires
        0 <= k <= e,
        e + p.len() <= s.len(),
        s.subrange(e, e + p.len()) == p,
        forall|j: int| k <= j < e ==> #[trigger] s.subrange(j, j + p.len()) != p,
    ensures
        find_seq(s, p, k) == e,
    decreases e - k,
{
    if k < e {
        assert(s.subrange(k, k + p.len()) != p);
        lemma_first_at(s, p, k + 1, e);
    }
}

/// `p` does not occur in `s` from `k` on.
proof fn lemma_not_found(s: Seq<char>, p: Seq<char>, k: int)
    requires
        0 <= k,
        forall|j: int| k <= j && j + p.len() <= s.len() ==> #[trigger] s.subrange(j, j + p.len()) != p,
    ensures
        find_seq(s, p, k) < 0,
    decreases s.len() + 1 - k,
{
    if k + p.len() <= s.len() {
        assert(s.subrange(k, k + p.len()) != p);
        lemma_not_found(s, p, k + 1);
    }
}

/// `p` does not occur in a text that lacks one of its characters.
proof fn lemma_lacks_char(s: Seq<char>, p: Seq<char>, o: int)
    requires
        0 <= o < p.len(),
        forall|j: int| 0 <= j < s.len() ==> s[j] != p[o],
    ensures
        find_seq(s, p, 0) < 0,
{
    assert forall|j: int| 0 <= j && j + p.len() <= s.len() implies #[trigger] s.subrange(j, j + p.len()) != p by {
        assert(s.subrange(j, j + p.len())[o] == s[j + o]);
    }
    lemma_not_found(s, p, 0);
}

/// Trimming keeps only characters of the text.
proof fn lemma_trimmed_within(s: Seq<char>, c: char)
    requires
        forall|j: int| 0 <= j < s.len() ==> s[j] != c,
    ensures
        forall|j: int| 0 <= j < trimmed(s).len() ==> trimmed(s)[j] != c,
{
    let a = lemma_drop_leading_shape(s, space_pred());
    let t = drop_leading(s, space_pred());
    let e = lemma_drop_trailing_shape(t, space_pred());
    assert forall|j: int| 0 <= j < trimmed(s).len() implies trimmed(s)[j] != c by {
        assert(trimmed(s)[j] == t[j]);
        assert(t[j] == s[a + j]);
    }
}

/// Text after `n` spaces, whose ends are not whitespace, is what trimming
/// leaves.
proof fn lemma_trimmed_indent(s: Seq<char>, n: int)
    requires
        0 <= n < s.len(),
        forall|j: int| 0 <= j < n ==> s[j] == ' ',
        !whitespace(s[n]),
        !whitespace(s.last()),
    ensures
        trimmed(s) == s.skip(n),
    decreases n,
{
    if n > 0 {
        assert(drop_leading(s, space_pred()) == drop_leading(s.drop_first(), space_pred()));
        lemma_trimmed_indent(s.drop_first(), n - 1);
        assert(s.drop_first().skip(n - 1) =~= s.skip(n));
        assert(drop_leading(s.drop_first(), space_pred()) == drop_leading(s.drop_first().skip(n - 1), space_pred()))
            by {
            let a = lemma_drop_leading_shape(s.drop_first(), space_pred());
            let b = lemma_drop_leading_shape(s.drop_first().skip(n - 1), space_pred());
        }
    } else {
        assert(drop_leading(s, space_pred()) == s);
        assert(s.skip(0) =~= s);
    }
    let t = s.skip(n);
    assert(t[0] == s[n]);
    assert(drop_leading(t, space_pred()) == t);
    assert(t.last() == s.last());
    assert(drop_trailing(t, space_pred()) == t);
}

/// The plist written for `binary` reads back as running that binary:
/// [`parse_plist_program_arguments`] of what [`generate_launchd_plist`]
/// writes (whose contracts are [`plist_scan`] of the [`lines`] and
/// [`launchd_plist`]) is the binary, so [`plist_file_is_current`] holds of
/// it. The binary is a path on one line with no `<` and no
/// `ProgramArguments` in it; the log directory `home` plays no part.
pub proof fn law_launchd_plist_round_trip(binary: Seq<char>, home: Seq<char>)
    requires
        forall|j: int| 0 <= j < binary.len() ==> binary[j] != '\n' && binary[j] != '<',
        !contains_seq(binary, "ProgramArguments"@),
    ensures
        plist_scan(lines(launchd_plist(binary, home)), 0, false, false) == Some(binary),
{
    let ls = lines(launchd_plist(binary, home));
    lemma_plist_lines(binary, home);
    let pa = "ProgramArguments"@;
    reveal_strlit("ProgramArguments");
    assert(pa[10] == 'u');
    assert forall|i: int| 0 <= i < 7 implies !contains_seq(trimmed(#[trigger] ls[i]), pa) by {
        lemma_trimmed_within(ls[i], 'u');
        lemma_lacks_char(trimmed(ls[i]), pa, 10);
    }
    lemma_plist_line7();
    lemma_plist_line8();
    lemma_plist_line9(binary, home);
    assert(plist_scan(ls, 9, true, true) == Some(binary));
    assert(plist_scan(ls, 8, true, false) == Some(binary));
    assert(plist_scan(ls, 7, false, false) == Some(binary));
    assert(plist_scan(ls, 6, false, false) == Some(binary));
    assert(plist_scan(ls, 5, false, false) == Some(binary));
    assert(plist_scan(ls, 4, false, false) == Some(binary));
    assert(plist_scan(ls, 3, false, false) == Some(binary));
    assert(plist_scan(ls, 2, false, false) == Some(binary));
    assert(plist_scan(ls, 1, false, false) == Some(binary));
}

/// The first ten lines of the plist: the nine head lines, which hold no
/// `u`, then the line naming the binary.
proof fn lemma_plist_lines(binary: Seq<char>, home: Seq<char>)
    requires
        forall|j: int| 0 <= j < binary.len() ==> binary[j] != '\n' && binary[j] != '<',
    ensures
        lines(launchd_plist(binary, home)).len() > 9,
        forall|i: int| 0 <= i < 7 ==> forall|j: int|
            0 <= j < (#[trigger] lines(launchd_plist(binary, home))[i]).len() ==> lines(launchd_plist(binary, home))[i][j] != 'u',
        lines(launchd_plist(binary, home))[7] == "  <key>ProgramArguments</key>"@,
        lines(launchd_plist(binary, home))[8] == "  <array>"@,
        lines(launchd_plist(binary, home))[9] == "    <string>"@ + binary + "</string>"@,
{
    reveal_strlit("<?xml version=\"1.0\" encoding=\"UTF-8\"?>");
    lemma_lines_cons("<?xml version=\"1.0\" encoding=\"UTF-8\"?>"@, line_then("<!DOCTYPE plist PUBLIC \"-//Apple//DTD PLIST 1.0//EN\""@, line_then("  \"http://www.apple.com/DTDs/PropertyList-1.0.dtd\">"@, line_then("<plist version=\"1.0\">"@, line_then("<dict>"@, line_then("  <key>Label</key>"@, line_then("  <string>com.scribe.daemon</string>"@, line_then("  <key>ProgramArguments</key>"@, line_then("  <array>"@, tail_lines(binary, home))))))))));
    reveal_strlit("<!DOCTYPE plist PUBLIC \"-//Apple//DTD PLIST 1.0//EN\"");
    lemma_lines_cons("<!DOCTYPE plist PUBLIC \"-//Apple//DTD PLIST 1.0//EN\""@, line_then("  \"http://www.apple.com/DTDs/PropertyList-1.0.dtd\">"@, line_then("<plist version=\"1.0\">"@, line_then("<dict>"@, line_then("  <key>Label</key>"@, line_then("  <string>com.scribe.daemon</string>"@, line_then("  <key>ProgramArguments</key>"@, line_then("  <array>"@, tail_lines(binary, home)))))))));
    reveal_strlit("  \"http://www.apple.com/DTDs/PropertyList-1.0.dtd\">");
    lemma_lines_cons("  \"http://www.apple.com/DTDs/PropertyList-1.0.dtd\">"@, line_then("<plist version=\"1.0\">"@, line_then("<dict>"@, line_then("  <key>Label</key>"@, line_then("  <string>com.scribe.daemon</string>"@, line_then("  <key>ProgramArguments</key>"@, line_then("  <array>"@, tail_lines(binary, home))))))));
    reveal_strlit("<plist version=\"1.0\">");
    lemma_lines_cons("<plist version=\"1.0\">"@, line_then("<dict>"@, line_then("  <key>Label</key>"@, line_then("  <string>com.scribe.daemon</string>"@, line_then("  <key>ProgramArguments</key>"@, line_then("  <array>"@, tail_lines(binary, home)))))));
    reveal_strlit("<dict>");
    lemma_lines_cons("<dict>"@, line_then("  <key>Label</key>"@, line_then("  <string>com.scribe.daemon</string>"@, line_then("  <key>ProgramArguments</key>"@, line_then("  <array>"@, tail_lines(binary, home))))));
    reveal_strlit("  <key>Label</key>");
    lemma_lines_cons("  <key>Label</key>"@, line_then("  <string>com.scribe.daemon</string>"@, line_then("  <key>ProgramArguments</key>"@, line_then("  <array>"@, tail_lines(binary, home)))));
    reveal_strlit("  <string>com.scribe.daemon</string>");
    lemma_lines_cons("  <string>com.scribe.daemon</string>"@, line_then("  <key>ProgramArguments</key>"@, line_then("  <array>"@, tail_lines(binary, home))));
    reveal_strlit("  <key>ProgramArguments</key>");
    lemma_lines_cons("  <key>ProgramArguments</key>"@, line_then("  <array>"@, tail_lines(binary, home)));
    reveal_strlit("  <array>");
    lemma_lines_cons("  <array>"@, tail_lines(binary, home));
    let t = tail_lines(binary, home);
    let l9 = "    <string>"@ + binary + "</string>"@;
    reveal_strlit("    <string>");
    reveal_strlit("</string>\n    <string>service</string>\n    <string>run</string>\n  </array>\n  <key>RunAtLoad</key>\n  <true/>\n  <key>KeepAlive</key>\n  <true/>\n  <key>StandardOutPath</key>\n  <string>");
    reveal_strlit("</string>");
    let mid = "</string>\n    <string>service</string>\n    <string>run</string>\n  </array>\n  <key>RunAtLoad</key>\n  <true/>\n  <key>KeepAlive</key>\n  <true/>\n  <key>StandardOutPath</key>\n  <string>"@;
    let after = mid.skip(10) + home + "/Library/Logs/scribe-daemon.log</string>\n  <key>StandardErrorPath</key>\n  <string>"@ + home + "/Library/Logs/scribe-daemon.log</string>\n</dict>\n</plist>\n"@;
    assert(t =~= line_then(l9, after));
    assert forall|j: int| 0 <= j < l9.len() implies l9[j] != '\n' by {
        if 12 <= j < 12 + binary.len() {
            assert(l9[j] == binary[j - 12]);
        }
    }
    lemma_lines_cons(l9, after);
    assert(l9.last() == '>');
    assert(strip_cr(l9) == l9);
}

/// Line 7 mentions `ProgramArguments`.
proof fn lemma_plist_line7()
    ensures
        contains_seq(trimmed("  <key>ProgramArguments</key>"@), "ProgramArguments"@),
        !begins(trimmed("  <key>ProgramArguments</key>"@), "<array>"@),
{
    let l = "  <key>ProgramArguments</key>"@;
    reveal_strlit("  <key>ProgramArguments</key>");
    reveal_strlit("ProgramArguments");
    reveal_strlit("<array>");
    lemma_trimmed_indent(l, 2);
    let t = l.skip(2);
    assert(t.subrange(5, 21) =~= "ProgramArguments"@);
    lemma_found(t, "ProgramArguments"@, 0, 5);
    assert(t.take(7)[1] != "<array>"@[1]);
}

/// Line 8 opens the array.
proof fn lemma_plist_line8()
    ensures
        !contains_seq(trimmed("  <array>"@), "ProgramArguments"@),
        begins(trimmed("  <array>"@), "<array>"@),
{
    let l = "  <array>"@;
    reveal_strlit("  <array>");
    reveal_strlit("ProgramArguments");
    reveal_strlit("<array>");
    lemma_trimmed_indent(l, 2);
    let t = l.skip(2);
    assert(t =~= "<array>"@);
    assert(t.take(7) =~= "<array>"@);
    assert("ProgramArguments"@[10] == 'u');
    lemma_lacks_char(t, "ProgramArguments"@, 10);
}

/// Line 9 holds the binary as its first string.
proof fn lemma_plist_line9(binary: Seq<char>, home: Seq<char>)
    requires
        forall|j: int| 0 <= j < binary.len() ==> binary[j] != '\n' && binary[j] != '<',
        !contains_seq(binary, "ProgramArguments"@),
    ensures
        ({
            let t = trimmed("    <string>"@ + binary + "</string>"@);
            &&& !contains_seq(t, "ProgramArguments"@)
            &&& !begins(t, "<array>"@)
            &&& !begins(t, "</array>"@)
            &&& begins(t, "<string>"@)
            &&& find_seq(t, "</string>"@, 0) >= 0
            &&& t.subrange(8, find_seq(t, "</string>"@, 0)) == binary
        }),
{
    let m = binary.len() as int;
    let l = "    <string>"@ + binary + "</string>"@;
    reveal_strlit("    <string>");
    reveal_strlit("</string>");
    reveal_strlit("<string>");
    reveal_strlit("<array>");
    reveal_strlit("</array>");
    reveal_strlit("ProgramArguments");
    lemma_trimmed_indent(l, 4);
    let t = l.skip(4);
    assert(t =~= "<string>"@ + binary + "</string>"@);
    assert(t.take(8) =~= "<string>"@);
    assert(t.take(7)[1] != "<array>"@[1]);
    assert(t.take(8)[1] != "</array>"@[1]);
    let close = "</string>"@;
    assert forall|j: int| 0 <= j < 8 + m implies #[trigger] t.subrange(j, j + close.len()) != close by {
        assert(t.subrange(j, j + close.len())[0] == t[j]);
        assert(t.subrange(j, j + close.len())[1] == t[j + 1]);
        if 8 <= j {
            assert(t[j] == binary[j - 8]);
        }
    }
    assert(t.subrange(8 + m, 17 + m) =~= close);
    lemma_first_at(t, close, 0, 8 + m);
    assert(t.subrange(8, 8 + m) =~= binary);
    let pa = "ProgramArguments"@;
    lemma_find_seq(binary, pa, 0);
    assert forall|j: int| 0 <= j && j + pa.len() <= t.len() implies #[trigger] t.subrange(j, j + pa.len()) != pa by {
        let w = t.subrange(j, j + pa.len());
        if j < 8 {
            assert(w[7 - j] == t[7]);
        } else if j + 16 > 8 + m {
            assert(w[8 + m - j] == t[8 + m]);
        } else {
            assert(w =~= binary.subrange(j - 8, j - 8 + 16));
        }
    }
    lemma_not_found(t, pa, 0);
}

} // verus!
