//! Guided Roon Bridge setup: the decisions around downloading Roon Bridge,
//! installing it as a per-user systemd service and switching a device's
//! output between exclusive ALSA and the desktop mix (PipeWire).
use vstd::prelude::*;
use crate::sort::{Named, sort_by_name, sort_by_name_spec};
use crate::json::{
    Json, JsonV, jview, jget, jlookup, jset, jstr, get, get_str, get_or_null, put, law_set_then_lookup,
    json_doc_text, json_parse_spec, json_text, parse_json,
};
use crate::text::{
    cat, debug_quoted, debug_quoted_spec, decimal, decimal_string, ends_with, owned, starts_with,
    str_ends_with, str_eq, str_starts_with, trim, trim_spec,
};

verus! {

/// The systemd user unit Attacca installs.
pub const UNIT_NAME: &'static str = "attacca-roonbridge.service";

/// RAATServer's local control port: an answer there means a Bridge already
/// serves this machine's audio devices.
pub const RAAT_PORT: u16 = 9004;

/// The partial download, in the install directory.
pub const TARBALL_PART: &'static str = "RoonBridge.tar.bz2.part";

/// Reported after a successful install.
pub const INSTALLED_MESSAGE: &'static str =
    "Roon Bridge is running. Now enable this computer's audio device in Roon Settings → Audio (from Roon on your phone or another computer).";

/// Reported after an uninstall.
pub const REMOVED_MESSAGE: &'static str = "Roon Bridge removed. Its zone disappears from Roon shortly.";

/// Reported when a device already plays into the desktop mix.
pub const ALREADY_PIPEWIRE_MESSAGE: &'static str = "Already in desktop-mix mode.";

/// Reported after a device's output was switched.
pub const SWITCHED_MESSAGE: &'static str =
    "Output switched — the zone drops for a few seconds while Roon Bridge restarts.";

/// The ALSA device of the desktop mix.
pub const PIPEWIRE_DEVICE: &'static str = "plug:pipewire";

/// Why a setup operation failed.
pub enum SetupError {
    Sandboxed,
    ForeignBridge,
    NoDataDir,
    NoConfigDir,
    UnsupportedArch(String),
    UnexpectedLayout,
    MissingLibrary(String),
    /// The path, as `{:?}` shows it.
    Unrepresentable(String),
    ServiceFailed,
    AudioServerTimeout,
    BadDeviceId,
    NoSavedSettings,
    UnknownMode(String),
    /// A failed `systemctl --user` call, with its message.
    Systemctl(String),
    /// A device's settings file is no JSON document: the parser's message.
    BadSettings(String),
}

pub open spec fn journal_hint() -> Seq<char> {
    " — check `journalctl --user -u "@ + UNIT_NAME@ + "`"@
}

/// The user-facing text of `e`.
pub open spec fn setup_message(e: SetupError) -> Seq<char> {
    match e {
        SetupError::Sandboxed => "the Flatpak sandbox cannot install services on the host"@,
        SetupError::ForeignBridge => "another Roon Bridge already serves this computer's audio devices — remove it first (for example a system-wide roonbridge service)"@,
        SetupError::NoDataDir => "no XDG data directory"@,
        SetupError::NoConfigDir => "no XDG config directory"@,
        SetupError::UnsupportedArch(a) => "Roon Bridge is not available for the "@ + a@ + " architecture"@,
        SetupError::UnexpectedLayout => "unexpected archive layout (no RoonBridge/start.sh)"@,
        SetupError::MissingLibrary(s) => "this system is missing a library Roon Bridge needs: "@ + s@,
        SetupError::Unrepresentable(q) => "install path contains characters a systemd unit cannot carry: "@
            + q@,
        SetupError::ServiceFailed => "the service failed to start"@ + journal_hint(),
        SetupError::AudioServerTimeout => "the service started but its audio server never came up"@
            + journal_hint(),
        SetupError::BadDeviceId => "bad device id"@,
        SetupError::NoSavedSettings => "no saved exclusive-mode settings for this device — disable and re-enable it in Roon Settings → Audio"@,
        SetupError::UnknownMode(m) => "unknown mode: "@ + m@,
        SetupError::Systemctl(m) => m@,
        SetupError::BadSettings(m) => m@,
    }
}

fn journal_hint_exec() -> (r: String)
    ensures
        r@ == journal_hint(),
{
    let a = cat(" — check `journalctl --user -u ", UNIT_NAME);
    cat(a.as_str(), "`")
}

impl SetupError {
    pub fn message(&self) -> (r: String)
        ensures
            r@ == setup_message(*self),
    {
        match self {
            SetupError::Sandboxed => owned("the Flatpak sandbox cannot install services on the host"),
            SetupError::ForeignBridge => owned(
                "another Roon Bridge already serves this computer's audio devices — remove it first (for example a system-wide roonbridge service)",
            ),
            SetupError::NoDataDir => owned("no XDG data directory"),
            SetupError::NoConfigDir => owned("no XDG config directory"),
            SetupError::UnsupportedArch(a) => {
                let t = cat("Roon Bridge is not available for the ", a.as_str());
                cat(t.as_str(), " architecture")
            },
            SetupError::UnexpectedLayout => owned("unexpected archive layout (no RoonBridge/start.sh)"),
            SetupError::MissingLibrary(s) => cat(
                "this system is missing a library Roon Bridge needs: ",
                s.as_str(),
            ),
            SetupError::Unrepresentable(q) => cat(
                "install path contains characters a systemd unit cannot carry: ",
                q.as_str(),
            ),
            SetupError::ServiceFailed => {
                let h = journal_hint_exec();
                cat("the service failed to start", h.as_str())
            },
            SetupError::AudioServerTimeout => {
                let h = journal_hint_exec();
                cat("the service started but its audio server never came up", h.as_str())
            },
            SetupError::BadDeviceId => owned("bad device id"),
            SetupError::NoSavedSettings => owned(
                "no saved exclusive-mode settings for this device — disable and re-enable it in Roon Settings → Audio",
            ),
            SetupError::UnknownMode(m) => cat("unknown mode: ", m.as_str()),
            SetupError::Systemctl(m) => m.clone(),
            SetupError::BadSettings(m) => m.clone(),
        }
    }
}

// ---------------------------------------------------------------- unit paths

/// `char::is_control`: general category Cc.
pub open spec fn is_control(c: char) -> bool {
    (c as u32) <= 0x1f || (0x7f <= (c as u32) && (c as u32) <= 0x9f)
}

/// A character that a quoted systemd directive can carry verbatim.
pub open spec fn unit_char_ok(c: char) -> bool {
    !is_control(c) && c != '"' && c != '\\'
}

pub open spec fn unit_safe(s: Seq<char>) -> bool {
    forall|i: int| 0 <= i < s.len() ==> unit_char_ok(#[trigger] s[i])
}

pub open spec fn escape_piece(c: char) -> Seq<char> {
    if c == '%' {
        seq!['%', '%']
    } else {
        seq![c]
    }
}

/// `s` with every `%` doubled (`s.replace('%', "%%")`).
pub open spec fn escape_percent(s: Seq<char>) -> Seq<char>
    decreases s.len(),
{
    if s.len() == 0 {
        Seq::empty()
    } else {
        escape_percent(s.drop_last()) + escape_piece(s.last())
    }
}

/// How systemd reads a directive value back: `%%` stands for `%`.
pub open spec fn systemd_unescape(t: Seq<char>) -> Seq<char>
    decreases t.len(),
{
    if t.len() == 0 {
        t
    } else if t.len() >= 2 && t[0] == '%' && t[1] == '%' {
        seq!['%'] + systemd_unescape(t.skip(2))
    } else {
        seq![t[0]] + systemd_unescape(t.drop_first())
    }
}

proof fn lemma_escape_concat(a: Seq<char>, b: Seq<char>)
    ensures
        escape_percent(a + b) == escape_percent(a) + escape_percent(b),
    decreases b.len(),
{
    if b.len() == 0 {
        assert(a + b =~= a);
        assert(escape_percent(a) + escape_percent(b) =~= escape_percent(a));
    } else {
        lemma_escape_concat(a, b.drop_last());
        assert((a + b).drop_last() =~= a + b.drop_last());
        assert((a + b).last() == b.last());
        assert(escape_percent(a) + escape_percent(b) =~= escape_percent(a) + escape_percent(
            b.drop_last(),
        ) + escape_piece(b.last()));
    }
}

proof fn lemma_unescape_escape(s: Seq<char>)
    ensures
        systemd_unescape(escape_percent(s)) == s,
    decreases s.len(),
{
    if s.len() > 0 {
        let c = s[0];
        let rest = s.drop_first();
        assert(s =~= seq![c] + rest);
        lemma_escape_concat(seq![c], rest);
        assert(seq![c].drop_last() =~= Seq::<char>::empty());
        assert(seq![c].last() == c);
        assert(escape_percent(Seq::<char>::empty()) =~= Seq::<char>::empty());
        assert(escape_percent(seq![c]) =~= escape_piece(c));
        let t = escape_percent(s);
        assert(t == escape_piece(c) + escape_percent(rest));
        lemma_unescape_escape(rest);
        if c == '%' {
            assert(t.skip(2) =~= escape_percent(rest));
        } else {
            assert(t[0] == c);
            assert(t.drop_first() =~= escape_percent(rest));
        }
        assert(systemd_unescape(t) =~= s);
    }
}

/// Every `%` of `t` is one of a `%%` pair, read from the end as systemd's
/// specifier parsing pairs them.
pub open spec fn percent_paired(t: Seq<char>) -> bool
    decreases t.len(),
{
    if t.len() == 0 {
        true
    } else if t.last() == '%' {
        t.len() >= 2 && t[t.len() - 2] == '%' && percent_paired(t.subrange(0, t.len() - 2))
    } else {
        percent_paired(t.drop_last())
    }
}

proof fn lemma_escape_safe_paired(s: Seq<char>)
    requires
        unit_safe(s),
    ensures
        unit_safe(escape_percent(s)),
        percent_paired(escape_percent(s)),
    decreases s.len(),
{
    if s.len() > 0 {
        let d = s.drop_last();
        assert forall|i: int| 0 <= i < d.len() implies unit_char_ok(#[trigger] d[i]) by {
            assert(d[i] == s[i]);
        }
        lemma_escape_safe_paired(d);
        let a = escape_percent(d);
        let c = s.last();
        assert(unit_char_ok(s[s.len() - 1]));
        let t = escape_percent(s);
        assert(t == a + escape_piece(c));
        assert forall|i: int| 0 <= i < t.len() implies unit_char_ok(#[trigger] t[i]) by {
            if i < a.len() {
                assert(t[i] == a[i]);
            }
        }
        if c == '%' {
            assert(t.subrange(0, t.len() - 2) =~= a);
        } else {
            assert(t.drop_last() =~= a);
        }
    }
}

/// Quotes-safe form of `path` for a systemd directive: `%` is escaped as
/// `%%`; a path holding a control character, `"` or `\` is refused rather
/// than written into a unit that would mean something else.
pub fn unit_path_str(path: &str) -> (r: Result<String, SetupError>)
    ensures
        unit_safe(path@) ==> (r matches Ok(s) && s@ == escape_percent(path@)),
        r matches Ok(s) ==> unit_safe(s@) && percent_paired(s@),
        !unit_safe(path@) ==> (r matches Err(SetupError::Unrepresentable(q)) && q@
            == debug_quoted_spec(path@)),
{
    let n = path.unicode_len();
    let mut i: usize = 0;
    while i < n
        invariant
            n == path@.len(),
            i <= n,
            forall|k: int| 0 <= k < i ==> unit_char_ok(#[trigger] path@[k]),
        decreases n - i,
    {
        let c = path.get_char(i);
        let u = c as u32;
        if u <= 0x1f || (0x7f <= u && u <= 0x9f) || c == '"' || c == '\\' {
            return Err(SetupError::Unrepresentable(debug_quoted(path)));
        }
        i = i + 1;
    }
    let mut out = String::new();
    let mut j: usize = 0;
    assert(path@.take(0) =~= Seq::<char>::empty());
    while j < n
        invariant
            n == path@.len(),
            j <= n,
            out@ == escape_percent(path@.take(j as int)),
        decreases n - j,
    {
        let c = path.get_char(j);
        proof {
            assert(path@.take(j + 1).drop_last() =~= path@.take(j as int));
            assert(path@.take(j + 1).last() == c);
        }
        if c == '%' {
            proof {
                reveal_strlit("%%");
            }
            out.append("%%");
        } else {
            out.append(path.substring_char(j, j + 1));
            assert(path@.subrange(j as int, j + 1) =~= seq![c]);
        }
        j = j + 1;
    }
    assert(path@.take(n as int) =~= path@);
    proof {
        lemma_escape_safe_paired(path@);
    }
    Ok(out)
}

/// What systemd reads from an accepted path is the path itself.
pub proof fn law_unit_path_roundtrip(path: Seq<char>)
    requires
        unit_safe(path),
    ensures
        systemd_unescape(escape_percent(path)) == path,
{
    lemma_unescape_escape(path);
}

/// The unit file for base directory `base`, data directory `data` and
/// program directory `program`, each already escaped.
pub open spec fn unit_text_spec(base: Seq<char>, data: Seq<char>, program: Seq<char>) -> Seq<char> {
    "# Written by Attacca's Roon Bridge setup. Managed by Attacca;\n# remove via the app or delete together with "@
        + base
        + ".\n[Unit]\nDescription=Roon Bridge (installed by Attacca)\n\n[Service]\nEnvironment=\"ROON_DATAROOT="@
        + data + "\"\nEnvironment=\"ROON_ID_DIR="@ + data + "\"\nExecStart=\""@ + program
        + "/start.sh\"\nRestart=on-failure\n\n[Install]\nWantedBy=default.target\n"@
}

/// The text of the systemd user unit that runs Roon Bridge from `program`
/// with its identity and settings under `data`; refused when one of the
/// paths (checked in the order base, data, program) cannot be carried.
pub fn unit_file_text(base: &str, data: &str, program: &str) -> (r: Result<String, SetupError>)
    ensures
        unit_safe(base@) && unit_safe(data@) && unit_safe(program@) ==> (r matches Ok(t) && t@
            == unit_text_spec(escape_percent(base@), escape_percent(data@), escape_percent(program@))),
        !unit_safe(base@) ==> (r matches Err(SetupError::Unrepresentable(q)) && q@
            == debug_quoted_spec(base@)),
        unit_safe(base@) && !unit_safe(data@) ==> (r matches Err(SetupError::Unrepresentable(q))
            && q@ == debug_quoted_spec(data@)),
        unit_safe(base@) && unit_safe(data@) && !unit_safe(program@) ==> (r matches Err(
            SetupError::Unrepresentable(q),
        ) && q@ == debug_quoted_spec(program@)),
{
    let b = match unit_path_str(base) {
        Ok(s) => s,
        Err(e) => return Err(e),
    };
    let d = match unit_path_str(data) {
        Ok(s) => s,
        Err(e) => return Err(e),
    };
    let p = match unit_path_str(program) {
        Ok(s) => s,
        Err(e) => return Err(e),
    };
    let mut t = owned(
        "# Written by Attacca's Roon Bridge setup. Managed by Attacca;\n# remove via the app or delete together with ",
    );
    t.append(b.as_str());
    t.append(
        ".\n[Unit]\nDescription=Roon Bridge (installed by Attacca)\n\n[Service]\nEnvironment=\"ROON_DATAROOT=",
    );
    t.append(d.as_str());
    t.append("\"\nEnvironment=\"ROON_ID_DIR=");
    t.append(d.as_str());
    t.append("\"\nExecStart=\"");
    t.append(p.as_str());
    t.append("/start.sh\"\nRestart=on-failure\n\n[Install]\nWantedBy=default.target\n");
    Ok(t)
}

// ---------------------------------------------------------------- install

/// The Roon Bridge download for a CPU architecture (`std::env::consts::ARCH`).
pub fn tarball_url(arch: &str) -> (r: Result<&'static str, SetupError>)
    ensures
        arch@ == "x86_64"@ ==> (r matches Ok(u) && u@
            == "https://download.roonlabs.net/builds/RoonBridge_linuxx64.tar.bz2"@),
        arch@ == "aarch64"@ ==> (r matches Ok(u) && u@
            == "https://download.roonlabs.net/builds/RoonBridge_linuxarmv8.tar.bz2"@),
        arch@ == "arm"@ ==> (r matches Ok(u) && u@
            == "https://download.roonlabs.net/builds/RoonBridge_linuxarmv7hf.tar.bz2"@),
        arch@ != "x86_64"@ && arch@ != "aarch64"@ && arch@ != "arm"@ ==> (r matches Err(
            SetupError::UnsupportedArch(a),
        ) && a@ == arch@),
{
    proof {
        reveal_strlit("x86_64");
        reveal_strlit("aarch64");
        reveal_strlit("arm");
        assert("x86_64"@.len() == 6 && "aarch64"@.len() == 7 && "arm"@.len() == 3);
    }
    if str_eq(arch, "x86_64") {
        Ok("https://download.roonlabs.net/builds/RoonBridge_linuxx64.tar.bz2")
    } else if str_eq(arch, "aarch64") {
        Ok("https://download.roonlabs.net/builds/RoonBridge_linuxarmv8.tar.bz2")
    } else if str_eq(arch, "arm") {
        Ok("https://download.roonlabs.net/builds/RoonBridge_linuxarmv7hf.tar.bz2")
    } else {
        Err(SetupError::UnsupportedArch(owned(arch)))
    }
}

/// Whether an install may start: never inside the Flatpak sandbox, and not
/// while a Bridge Attacca does not manage answers on the RAAT port (ours
/// would attach to it and serve nothing).
pub fn install_preflight(sandboxed: bool, raat_alive: bool, service_active: bool) -> (r: Result<
    (),
    SetupError,
>)
    ensures
        sandboxed ==> r matches Err(SetupError::Sandboxed),
        !sandboxed && raat_alive && !service_active ==> r matches Err(SetupError::ForeignBridge),
        !sandboxed && !(raat_alive && !service_active) ==> r is Ok,
{
    if sandboxed {
        return Err(SetupError::Sandboxed);
    }
    if raat_alive && !service_active {
        return Err(SetupError::ForeignBridge);
    }
    Ok(())
}

/// The name of the extraction directory of process `pid`.
pub open spec fn staging_name_spec(pid: u32) -> Seq<char> {
    ".extract.tmp-"@ + decimal(pid as nat)
}

/// The name the previous install is moved aside to by process `pid`.
pub open spec fn old_install_name_spec(pid: u32) -> Seq<char> {
    "RoonBridge.old-"@ + decimal(pid as nat)
}

pub fn staging_name(pid: u32) -> (r: String)
    ensures
        r@ == staging_name_spec(pid),
{
    let d = decimal_string(pid as u64);
    cat(".extract.tmp-", d.as_str())
}

pub fn old_install_name(pid: u32) -> (r: String)
    ensures
        r@ == old_install_name_spec(pid),
{
    let d = decimal_string(pid as u64);
    cat("RoonBridge.old-", d.as_str())
}

/// What the cleanup does with an entry of the install directory.
#[derive(Clone, Copy, Debug, PartialEq, Eq, Structural)]
pub enum Transient {
    RemoveDir,
    RemoveFile,
    Keep,
}

pub open spec fn transient_spec(name: Seq<char>) -> Transient {
    if starts_with(name, ".extract.tmp"@) || starts_with(name, "RoonBridge.old"@) {
        Transient::RemoveDir
    } else if name == TARBALL_PART@ {
        Transient::RemoveFile
    } else {
        Transient::Keep
    }
}

/// Leftovers of crashed or failed earlier runs: extraction directories and
/// moved-aside installs are removed, and so is a partial download.
pub fn transient_kind(name: &str) -> (r: Transient)
    ensures
        r == transient_spec(name@),
{
    if str_starts_with(name, ".extract.tmp") || str_starts_with(name, "RoonBridge.old") {
        Transient::RemoveDir
    } else if str_eq(name, TARBALL_PART) {
        Transient::RemoveFile
    } else {
        Transient::Keep
    }
}

proof fn lemma_prefix_of_concat(a: Seq<char>, p: Seq<char>, b: Seq<char>)
    requires
        starts_with(a, p),
    ensures
        starts_with(a + b, p),
{
    assert((a + b).take(p.len() as int) =~= a.take(p.len() as int));
}

/// Everything an install leaves behind when it is cut short is removed by
/// the next cleanup: its extraction directory, the moved-aside previous
/// install and the partial download.
pub proof fn law_cleanup_covers_install(pid: u32)
    ensures
        transient_spec(staging_name_spec(pid)) == Transient::RemoveDir,
        transient_spec(old_install_name_spec(pid)) == Transient::RemoveDir,
        transient_spec(TARBALL_PART@) == Transient::RemoveFile,
{
    reveal_strlit(".extract.tmp-");
    reveal_strlit(".extract.tmp");
    reveal_strlit("RoonBridge.old-");
    reveal_strlit("RoonBridge.old");
    reveal_strlit("RoonBridge.tar.bz2.part");
    assert(starts_with(".extract.tmp-"@, ".extract.tmp"@)) by {
        assert(".extract.tmp-"@.take(12) =~= ".extract.tmp"@);
    }
    lemma_prefix_of_concat(".extract.tmp-"@, ".extract.tmp"@, decimal(pid as nat));
    assert(starts_with("RoonBridge.old-"@, "RoonBridge.old"@)) by {
        assert("RoonBridge.old-"@.take(14) =~= "RoonBridge.old"@);
    }
    lemma_prefix_of_concat("RoonBridge.old-"@, "RoonBridge.old"@, decimal(pid as nat));
    assert(!starts_with(TARBALL_PART@, ".extract.tmp"@)) by {
        assert(TARBALL_PART@[0] != ".extract.tmp"@[0]);
        assert(TARBALL_PART@.take(12)[0] == TARBALL_PART@[0]);
    }
    assert(!starts_with(TARBALL_PART@, "RoonBridge.old"@)) by {
        assert(TARBALL_PART@[11] != "RoonBridge.old"@[11]);
        assert(TARBALL_PART@.take(14)[11] == TARBALL_PART@[11]);
    }
}

/// Roon's preflight check: exit code 3 means a required library is
/// missing; any other outcome is advisory only.
pub fn preflight_verdict(exit_code: Option<i32>, stdout: &str) -> (r: Result<(), SetupError>)
    ensures
        exit_code == Some(3i32) ==> (r matches Err(SetupError::MissingLibrary(m)) && m@ == trim_spec(
            stdout@,
        )),
        exit_code != Some(3i32) ==> r is Ok,
{
    match exit_code {
        Some(c) => if c == 3 {
            Err(SetupError::MissingLibrary(trim(stdout)))
        } else {
            Ok(())
        },
        None => Ok(()),
    }
}

/// Rounds of half a second to wait for the audio server after starting the service.
pub const WAIT_ROUNDS: u32 = 60;

/// One round of waiting for the service after it was started.
#[derive(Clone, Copy, Debug, PartialEq, Eq, Structural)]
pub enum WaitStep {
    /// The service runs and its audio server answers.
    Ready,
    /// The service is not active after the grace rounds: it failed.
    Failed,
    /// Wait half a second more.
    Wait,
}

/// Round `round` of the wait: done once the service is active and RAAT
/// answers; a few rounds' grace for "activating", after which an inactive
/// service is reported as failed instead of waiting out the timeout.
pub fn wait_step(round: u32, service_active: bool, raat_alive: bool) -> (r: WaitStep)
    ensures
        service_active && raat_alive ==> r == WaitStep::Ready,
        !(service_active && raat_alive) && round > 6 && !service_active ==> r == WaitStep::Failed,
        !(service_active && raat_alive) && !(round > 6 && !service_active) ==> r == WaitStep::Wait,
{
    if service_active && raat_alive {
        WaitStep::Ready
    } else if round > 6 && !service_active {
        WaitStep::Failed
    } else {
        WaitStep::Wait
    }
}

// ---------------------------------------------------------------- install order

/// A step of an install, once the preflight passed. The first four only
/// prepare the new program directory beside the install; the existing
/// install and the service are touched from `StopService` on.
#[derive(Clone, Copy, Debug, PartialEq, Eq, Structural)]
pub enum InstallStep {
    /// Download the tarball.
    Download,
    /// Unpack it into the staging directory.
    Unpack,
    /// Check that the archive holds `RoonBridge/start.sh`.
    CheckLayout,
    /// Run Roon's own preflight check.
    Preflight,
    /// Stop the service, if its unit exists (a failure is ignored).
    StopService,
    /// Rename the previous program directory aside, if there is one.
    MoveAside,
    /// Rename the unpacked program directory into place.
    MoveIn,
    /// Remove the moved-aside directory (a failure is ignored).
    RemoveOld,
    /// Write the unit file.
    WriteUnit,
    /// `systemctl --user daemon-reload`.
    Reload,
    /// `systemctl --user enable --now`.
    Enable,
    /// Poll round `n` for the service and its audio server.
    Wait(u32),
    /// Done: the Bridge runs.
    Installed,
    /// A step failed; its error is the install's.
    Aborted,
    /// The service was not active after the grace rounds.
    ServiceFailed,
    /// The audio server never answered.
    TimedOut,
}

/// What performing a step gave.
#[derive(Clone, Copy, Debug, PartialEq, Eq, Structural)]
pub enum InstallEvent {
    /// A step's action finished, successfully or not.
    Finished(bool),
    /// A poll of the waiting step: is the service active, does RAAT answer.
    Polled { service_active: bool, raat_alive: bool },
}

/// The step after `step` once it gave `ev`. A poll answers only the waiting
/// step and a finished action only the others; the other pairing aborts. A
/// final step stays as it is.
pub open spec fn install_next_spec(step: InstallStep, ev: InstallEvent) -> InstallStep {
    match step {
        InstallStep::Wait(n) => match ev {
            InstallEvent::Polled { service_active, raat_alive } => if service_active && raat_alive {
                InstallStep::Installed
            } else if n > 6 && !service_active {
                InstallStep::ServiceFailed
            } else if n + 1 < WAIT_ROUNDS {
                InstallStep::Wait((n + 1) as u32)
            } else {
                InstallStep::TimedOut
            },
            InstallEvent::Finished(_) => InstallStep::Aborted,
        },
        InstallStep::Installed | InstallStep::Aborted | InstallStep::ServiceFailed
        | InstallStep::TimedOut => step,
        _ => match ev {
            InstallEvent::Polled { .. } => InstallStep::Aborted,
            InstallEvent::Finished(ok) => match step {
                InstallStep::StopService => InstallStep::MoveAside,
                InstallStep::RemoveOld => InstallStep::WriteUnit,
                _ => if !ok {
                    InstallStep::Aborted
                } else {
                    match step {
                        InstallStep::Download => InstallStep::Unpack,
                        InstallStep::Unpack => InstallStep::CheckLayout,
                        InstallStep::CheckLayout => InstallStep::Preflight,
                        InstallStep::Preflight => InstallStep::StopService,
                        InstallStep::MoveAside => InstallStep::MoveIn,
                        InstallStep::MoveIn => InstallStep::RemoveOld,
                        InstallStep::WriteUnit => InstallStep::Reload,
                        InstallStep::Reload => InstallStep::Enable,
                        _ => InstallStep::Wait(0),
                    }
                },
            },
        },
    }
}

/// The step after `step` once it gave `ev`.
pub fn install_step(step: InstallStep, ev: InstallEvent) -> (r: InstallStep)
    ensures
        r == install_next_spec(step, ev),
{
    match step {
        InstallStep::Wait(n) => match ev {
            InstallEvent::Polled { service_active, raat_alive } => match wait_step(
                n,
                service_active,
                raat_alive,
            ) {
                WaitStep::Ready => InstallStep::Installed,
                WaitStep::Failed => InstallStep::ServiceFailed,
                WaitStep::Wait => if n < WAIT_ROUNDS - 1 {
                    InstallStep::Wait(n + 1)
                } else {
                    InstallStep::TimedOut
                },
            },
            InstallEvent::Finished(_) => InstallStep::Aborted,
        },
        InstallStep::Installed | InstallStep::Aborted | InstallStep::ServiceFailed
        | InstallStep::TimedOut => step,
        _ => match ev {
            InstallEvent::Polled { .. } => InstallStep::Aborted,
            InstallEvent::Finished(ok) => match step {
                InstallStep::StopService => InstallStep::MoveAside,
                InstallStep::RemoveOld => InstallStep::WriteUnit,
                _ => if !ok {
                    InstallStep::Aborted
                } else {
                    match step {
                        InstallStep::Download => InstallStep::Unpack,
                        InstallStep::Unpack => InstallStep::CheckLayout,
                        InstallStep::CheckLayout => InstallStep::Preflight,
                        InstallStep::Preflight => InstallStep::StopService,
                        InstallStep::MoveAside => InstallStep::MoveIn,
                        InstallStep::MoveIn => InstallStep::RemoveOld,
                        InstallStep::WriteUnit => InstallStep::Reload,
                        InstallStep::Reload => InstallStep::Enable,
                        _ => InstallStep::Wait(0),
                    }
                },
            },
        },
    }
}

/// The status the wizard shows when `step` begins, if it shows a new one.
pub open spec fn install_status_spec(step: InstallStep) -> Option<Seq<char>> {
    match step {
        InstallStep::Download => Some("Downloading Roon Bridge…"@),
        InstallStep::Unpack => Some("Unpacking…"@),
        InstallStep::Preflight => Some("Checking system requirements…"@),
        InstallStep::StopService => Some("Installing…"@),
        InstallStep::WriteUnit => Some("Starting the service…"@),
        InstallStep::Wait(n) => if n == 0 {
            Some("Waiting for the audio server…"@)
        } else {
            None
        },
        _ => None,
    }
}

pub fn install_status(step: InstallStep) -> (r: Option<&'static str>)
    ensures
        match r {
            Some(t) => install_status_spec(step) == Some(t@),
            None => install_status_spec(step) is None,
        },
{
    match step {
        InstallStep::Download => Some("Downloading Roon Bridge…"),
        InstallStep::Unpack => Some("Unpacking…"),
        InstallStep::Preflight => Some("Checking system requirements…"),
        InstallStep::StopService => Some("Installing…"),
        InstallStep::WriteUnit => Some("Starting the service…"),
        InstallStep::Wait(n) => if n == 0 {
            Some("Waiting for the audio server…")
        } else {
            None
        },
        _ => None,
    }
}

/// The steps that act on the existing install or on the service.
pub open spec fn changes_system(step: InstallStep) -> bool {
    match step {
        InstallStep::Download | InstallStep::Unpack | InstallStep::CheckLayout
        | InstallStep::Preflight | InstallStep::Installed | InstallStep::Aborted
        | InstallStep::ServiceFailed | InstallStep::TimedOut => false,
        _ => true,
    }
}

/// The order of an install: a failed download, unpack, layout check or
/// preflight ends the install before anything of the existing install or
/// the service is touched, which happens only after the preflight passed;
/// the previous program directory is moved aside only right after the
/// service was stopped, and the new one is moved in as the very next step,
/// so a crash leaves the unit without a program directory only between two
/// renames.
pub proof fn law_install_order(step: InstallStep, ev: InstallEvent)
    ensures
        (step == InstallStep::Download || step == InstallStep::Unpack || step
            == InstallStep::CheckLayout || step == InstallStep::Preflight) ==> install_next_spec(
            step,
            InstallEvent::Finished(false),
        ) == InstallStep::Aborted,
        !changes_system(step) && changes_system(install_next_spec(step, ev)) ==> step
            == InstallStep::Preflight && ev == InstallEvent::Finished(true),
        install_next_spec(step, ev) == InstallStep::MoveAside ==> step == InstallStep::StopService,
        install_next_spec(InstallStep::MoveAside, InstallEvent::Finished(true)) == InstallStep::MoveIn,
{
}

/// The wait ends: each poll that keeps waiting moves on one round, and
/// never past the last.
pub proof fn law_wait_ends(n: u32, ev: InstallEvent)
    ensures
        install_next_spec(InstallStep::Wait(n), ev) matches InstallStep::Wait(m) ==> m == n + 1
            && m < WAIT_ROUNDS,
{
}

// ---------------------------------------------------------------- devices

pub open spec fn is_hex_digit(c: char) -> bool {
    ('0' <= c && c <= '9') || ('a' <= c && c <= 'f') || ('A' <= c && c <= 'F')
}

/// A device id as RAATServer generates it: a non-empty hex file stem.
pub open spec fn valid_device_id_spec(id: Seq<char>) -> bool {
    id.len() > 0 && forall|i: int| 0 <= i < id.len() ==> is_hex_digit(#[trigger] id[i])
}

/// The id also names a file, so only the hex stems RAATServer generates are accepted.
pub fn valid_device_id(id: &str) -> (r: bool)
    ensures
        r == valid_device_id_spec(id@),
{
    let n = id.unicode_len();
    if n == 0 {
        return false;
    }
    let mut i: usize = 0;
    while i < n
        invariant
            n == id@.len(),
            i <= n,
            forall|k: int| 0 <= k < i ==> is_hex_digit(#[trigger] id@[k]),
        decreases n - i,
    {
        let c = id.get_char(i);
        if !(('0' <= c && c <= '9') || ('a' <= c && c <= 'f') || ('A' <= c && c <= 'F')) {
            return false;
        }
        i = i + 1;
    }
    true
}

pub open spec fn device_file_name_spec(id: Seq<char>) -> Seq<char> {
    "device_"@ + id + ".json"@
}

/// The settings file of device `id` in RAATServer's settings directory.
pub fn device_file_name(id: &str) -> (r: String)
    ensures
        r@ == device_file_name_spec(id@),
{
    let t = cat("device_", id);
    cat(t.as_str(), ".json")
}

/// The device id a settings file belongs to: the file name between the
/// `device_` prefix and the `.json` suffix.
pub fn device_id_from_file_name(name: &str) -> (r: Option<String>)
    ensures
        starts_with(name@, "device_"@) && ends_with(name@.skip(7), ".json"@) ==> (r matches Some(
            id,
        ) && id@ == name@.subrange(7, name@.len() - 5)),
        !(starts_with(name@, "device_"@) && ends_with(name@.skip(7), ".json"@)) ==> r is None,
{
    proof {
        reveal_strlit("device_");
        reveal_strlit(".json");
    }
    if !str_starts_with(name, "device_") {
        return None;
    }
    let n = name.unicode_len();
    let rest = name.substring_char(7, n);
    assert(rest@ =~= name@.skip(7));
    if !str_ends_with(rest, ".json") {
        return None;
    }
    let stem = rest.substring_char(0, n - 12);
    assert(stem@ =~= name@.subrange(7, name@.len() - 5));
    Some(owned(stem))
}

/// Reading back the file name of a device gives the device.
pub proof fn law_device_file_roundtrip(id: Seq<char>)
    ensures
        ({
            let name = device_file_name_spec(id);
            &&& starts_with(name, "device_"@)
            &&& ends_with(name.skip(7), ".json"@)
            &&& name.subrange(7, name.len() - 5) == id
        }),
{
    reveal_strlit("device_");
    reveal_strlit(".json");
    let name = device_file_name_spec(id);
    assert(name.take(7) =~= "device_"@);
    assert(name.skip(7).skip(name.skip(7).len() - 5) =~= ".json"@);
    assert(name.subrange(7, name.len() - 5) =~= id);
}

/// The mode a device's ALSA output is in.
pub open spec fn device_mode_spec(device: Seq<char>) -> Seq<char> {
    if device == PIPEWIRE_DEVICE@ {
        "pipewire"@
    } else {
        "exclusive"@
    }
}

pub fn device_mode(device: &str) -> (r: &'static str)
    ensures
        r@ == device_mode_spec(device@),
{
    if str_eq(device, PIPEWIRE_DEVICE) {
        "pipewire"
    } else {
        "exclusive"
    }
}

/// An enabled device, as the device list shows it.
pub struct DeviceEntry {
    pub id: String,
    pub name: String,
    pub device: String,
    pub mode: String,
}

impl Named for DeviceEntry {
    open spec fn name_of(&self) -> Seq<char> {
        self.name@
    }

    fn name_str(&self) -> (r: &str) {
        self.name.as_str()
    }
}

/// The list entry of device `id` whose settings name ALSA device `device`
/// and display name `name`: a missing device reads as empty, a missing name
/// as the device.
pub fn device_entry(id: String, device: Option<String>, name: Option<String>) -> (r: DeviceEntry)
    ensures
        r.id == id,
        r.device@ == match device {
            Some(d) => d@,
            None => Seq::empty(),
        },
        r.name@ == match name {
            Some(n) => n@,
            None => r.device@,
        },
        r.mode@ == device_mode_spec(r.device@),
{
    let device = match device {
        Some(d) => d,
        None => String::new(),
    };
    let name = match name {
        Some(n) => n,
        None => device.clone(),
    };
    let mode = owned(device_mode(device.as_str()));
    DeviceEntry { id, name, device, mode }
}

/// Orders the device list by display name, stably.
pub fn sort_devices(devices: &mut Vec<DeviceEntry>)
    ensures
        final(devices)@ == sort_by_name_spec(old(devices)@),
{
    sort_by_name(devices);
}

/// What switching a device's output will do.
#[derive(Clone, Copy, Debug, PartialEq, Eq, Structural)]
pub enum ModePlan {
    /// The device already plays into the desktop mix; nothing to do.
    AlreadyDesktopMix,
    /// Save the current settings as the device's original, then switch its
    /// output to the desktop mix (software volume, no hardware mixer).
    SaveAndSwitchToDesktopMix,
    /// Put the saved original settings back.
    RestoreOriginal,
}

/// The plan for setting mode `mode` on a device whose current ALSA device
/// is `current_device` (when the settings hold one as text), with
/// `has_original` telling whether original settings were saved for it.
pub fn plan_device_mode(mode: &str, current_device: Option<String>, has_original: bool) -> (r:
    Result<ModePlan, SetupError>)
    ensures
        mode@ == "pipewire"@ ==> r == if current_device matches Some(d) && d@ == PIPEWIRE_DEVICE@ {
            Ok::<ModePlan, SetupError>(ModePlan::AlreadyDesktopMix)
        } else {
            Ok(ModePlan::SaveAndSwitchToDesktopMix)
        },
        mode@ == "exclusive"@ && has_original ==> r == Ok::<ModePlan, SetupError>(ModePlan::RestoreOriginal),
        mode@ == "exclusive"@ && !has_original ==> r matches Err(SetupError::NoSavedSettings),
        mode@ != "pipewire"@ && mode@ != "exclusive"@ ==> (r matches Err(SetupError::UnknownMode(m))
            && m@ == mode@),
{
    proof {
        reveal_strlit("pipewire");
        reveal_strlit("exclusive");
        assert("pipewire"@.len() == 8 && "exclusive"@.len() == 9);
    }
    if str_eq(mode, "pipewire") {
        let already = match &current_device {
            Some(d) => str_eq(d.as_str(), PIPEWIRE_DEVICE),
            None => false,
        };
        if already {
            Ok(ModePlan::AlreadyDesktopMix)
        } else {
            Ok(ModePlan::SaveAndSwitchToDesktopMix)
        }
    } else if str_eq(mode, "exclusive") {
        if has_original {
            Ok(ModePlan::RestoreOriginal)
        } else {
            Err(SetupError::NoSavedSettings)
        }
    } else {
        Err(SetupError::UnknownMode(owned(mode)))
    }
}

// ---------------------------------------------------------------- detection

/// Index of the first line feed in `s`, or its length.
pub open spec fn line_end(s: Seq<char>) -> int
    decreases s.len(),
{
    if s.len() == 0 {
        0
    } else if s[0] == '\n' {
        0
    } else {
        1 + line_end(s.drop_first())
    }
}

proof fn lemma_line_end(s: Seq<char>, i: int)
    requires
        0 <= i <= s.len(),
        forall|k: int| 0 <= k < i ==> #[trigger] s[k] != '\n',
        i == s.len() || s[i] == '\n',
    ensures
        line_end(s) == i,
    decreases i,
{
    if i > 0 {
        assert forall|k: int| 0 <= k < i - 1 implies #[trigger] s.drop_first()[k] != '\n' by {
            assert(s.drop_first()[k] == s[k + 1]);
        }
        lemma_line_end(s.drop_first(), i - 1);
    }
}

/// The second line of `s` (`s.lines().nth(1)`, before trimming), empty when
/// there is none.
pub open spec fn second_line(s: Seq<char>) -> Seq<char> {
    let a = line_end(s);
    if a >= s.len() {
        Seq::empty()
    } else {
        let rest = s.skip(a + 1);
        rest.take(line_end(rest))
    }
}

fn find_line_feed(s: &str, from: usize, n: usize) -> (r: usize)
    requires
        n == s@.len(),
        from <= n,
    ensures
        from <= r <= n,
        r == from + line_end(s@.skip(from as int)),
{
    let mut i = from;
    while i < n && s.get_char(i) != '\n'
        invariant
            n == s@.len(),
            from <= i <= n,
            forall|k: int| from <= k < i ==> #[trigger] s@[k] != '\n',
        decreases n - i,
    {
        i = i + 1;
    }
    proof {
        let t = s@.skip(from as int);
        assert forall|k: int| 0 <= k < i - from implies #[trigger] t[k] != '\n' by {
            assert(t[k] == s@[from + k]);
        }
        lemma_line_end(t, i - from);
    }
    i
}

/// The installed Roon Bridge version from its `VERSION` file: the second,
/// human-readable line ("2.71 (build 1683) production"), trimmed.
pub fn version_from_file(text: &str) -> (r: String)
    ensures
        r@ == trim_spec(second_line(text@)),
{
    let n = text.unicode_len();
    let a = find_line_feed(text, 0, n);
    assert(text@.skip(0) =~= text@);
    if a >= n {
        assert(crate::text::lead_white(Seq::<char>::empty()) == 0);
        return String::new();
    }
    let b = find_line_feed(text, a + 1, n);
    let line = text.substring_char(a + 1, b);
    proof {
        let rest = text@.skip(a + 1);
        assert(line@ =~= rest.take(line_end(rest)));
    }
    trim(line)
}

/// `systemctl --user is-active` printed "active".
pub fn is_active_output(stdout: &str) -> (r: bool)
    ensures
        r == (trim_spec(stdout@) == "active"@),
{
    let t = trim(stdout);
    str_eq(t.as_str(), "active")
}

/// `a` joined by single spaces.
pub open spec fn join_spaces(a: Seq<Seq<char>>) -> Seq<char>
    decreases a.len(),
{
    if a.len() == 0 {
        Seq::empty()
    } else if a.len() == 1 {
        a[0]
    } else {
        join_spaces(a.drop_last()) + " "@ + a.last()
    }
}

/// The outcome of `systemctl --user <args>`: its trimmed output on
/// success; otherwise a message naming the command and its trimmed error
/// output (or, when that is empty, its trimmed standard output).
pub fn systemctl_outcome(success: bool, args: &Vec<&str>, stdout: &str, stderr: &str) -> (r: Result<
    String,
    SetupError,
>)
    ensures
        success ==> (r matches Ok(o) && o@ == trim_spec(stdout@)),
        !success ==> (r matches Err(SetupError::Systemctl(m)) && m@ == "systemctl --user "@
            + join_spaces(args@.map_values(|a: &str| a@)) + " failed: "@ + if trim_spec(stderr@).len()
            == 0 {
            trim_spec(stdout@)
        } else {
            trim_spec(stderr@)
        }),
{
    let out = trim(stdout);
    if success {
        return Ok(out);
    }
    let err = trim(stderr);
    let mut joined = String::new();
    let ghost v = args@.map_values(|a: &str| a@);
    let mut i: usize = 0;
    while i < args.len()
        invariant
            i <= args@.len(),
            v == args@.map_values(|a: &str| a@),
            joined@ == join_spaces(v.take(i as int)),
        decreases args.len() - i,
    {
        proof {
            assert(v.take(i + 1).drop_last() =~= v.take(i as int));
            assert(v.take(i + 1).last() == args@[i as int]@);
        }
        if i > 0 {
            joined.append(" ");
        } else {
            assert(v.take(0) =~= Seq::<Seq<char>>::empty());
            assert(joined@ == Seq::<char>::empty());
        }
        joined.append(args[i]);
        assert(i == 0 ==> joined@ =~= v.take(1)[0]);
        i = i + 1;
    }
    assert(v.take(args@.len() as int) =~= v);
    let mut m = cat("systemctl --user ", joined.as_str());
    m.append(" failed: ");
    if err.as_str().unicode_len() == 0 {
        m.append(out.as_str());
    } else {
        m.append(err.as_str());
    }
    Err(SetupError::Systemctl(m))
}

// ---------------------------------------------------------------- the wizard

/// What the detection of the machine found.
pub struct Detection {
    pub installed_version: String,
    pub service_active: bool,
    pub raat_alive: bool,
    pub pipewire_ok: bool,
    pub sandboxed: bool,
}

/// The setup wizard's state (its progress bar aside).
pub struct BridgeSetup {
    /// An operation runs; every wizard button is gated on this.
    pub busy: bool,
    pub status_text: String,
    pub installed_version: String,
    pub service_active: bool,
    pub raat_alive: bool,
    pub pipewire_ok: bool,
    pub sandboxed: bool,
}

/// A device-mode switch to run.
pub struct DeviceModeRequest {
    pub device_id: String,
    pub mode: String,
}

impl BridgeSetup {
    /// The state after `begin_op`: an idle wizard becomes busy, a busy one stays as it is.
    pub open spec fn after_begin(self) -> BridgeSetup {
        if self.busy {
            self
        } else {
            BridgeSetup { busy: true, ..self }
        }
    }

    /// The state after `d` was detected.
    pub open spec fn detected(self, d: Detection) -> BridgeSetup {
        BridgeSetup {
            installed_version: d.installed_version,
            service_active: d.service_active,
            raat_alive: d.raat_alive,
            pipewire_ok: d.pipewire_ok,
            sandboxed: d.sandboxed,
            ..self
        }
    }

    pub fn new() -> (r: BridgeSetup)
        ensures
            !r.busy,
            r.status_text@.len() == 0,
            r.installed_version@.len() == 0,
            !r.service_active && !r.raat_alive && !r.pipewire_ok && !r.sandboxed,
    {
        BridgeSetup {
            busy: false,
            status_text: String::new(),
            installed_version: String::new(),
            service_active: false,
            raat_alive: false,
            pipewire_ok: false,
            sandboxed: false,
        }
    }

    /// Syncs the detection-derived properties.
    pub fn refresh(&mut self, d: Detection)
        ensures
            *final(self) == old(self).detected(d),
    {
        self.installed_version = d.installed_version;
        self.service_active = d.service_active;
        self.raat_alive = d.raat_alive;
        self.pipewire_ok = d.pipewire_ok;
        self.sandboxed = d.sandboxed;
    }

    /// Starts an operation unless one runs already: true when it may start.
    fn begin_op(&mut self) -> (r: bool)
        ensures
            r == !old(self).busy,
            *final(self) == old(self).after_begin(),
    {
        if self.busy {
            return false;
        }
        self.busy = true;
        true
    }

    /// Starts an install; false (and nothing changes) while an operation runs.
    pub fn install(&mut self) -> (r: bool)
        ensures
            r == !old(self).busy,
            *final(self) == old(self).after_begin(),
    {
        self.begin_op()
    }

    /// Starts an uninstall; false (and nothing changes) while an operation runs.
    pub fn uninstall(&mut self) -> (r: bool)
        ensures
            r == !old(self).busy,
            *final(self) == old(self).after_begin(),
    {
        self.begin_op()
    }

    /// Starts switching device `device_id` to `mode`; none while an operation runs.
    pub fn set_device_mode(&mut self, device_id: String, mode: String) -> (r: Option<
        DeviceModeRequest,
    >)
        ensures
            *final(self) == old(self).after_begin(),
            old(self).busy ==> r is None,
            !old(self).busy ==> (r matches Some(q) && q.device_id == device_id && q.mode == mode),
    {
        if self.begin_op() {
            Some(DeviceModeRequest { device_id, mode })
        } else {
            None
        }
    }

    /// Shows `text` as the operation's status.
    pub fn set_status(&mut self, text: String)
        ensures
            *final(self) == (BridgeSetup { status_text: text, ..*old(self) }),
    {
        self.status_text = text;
    }

    /// Ends the running operation: detection is re-applied, the wizard is
    /// idle again with an empty status, and the result becomes the
    /// (success, message) pair the UI reports.
    pub fn finish_op(&mut self, d: Detection, result: Result<String, String>) -> (r: (bool, String))
        ensures
            !final(self).busy,
            final(self).status_text@.len() == 0,
            final(self).installed_version == d.installed_version,
            final(self).service_active == d.service_active,
            final(self).raat_alive == d.raat_alive,
            final(self).pipewire_ok == d.pipewire_ok,
            final(self).sandboxed == d.sandboxed,
            r.0 == result is Ok,
            r.1 == match result {
                Ok(m) => m,
                Err(m) => m,
            },
    {
        self.refresh(d);
        self.busy = false;
        self.status_text = String::new();
        match result {
            Ok(m) => (true, m),
            Err(m) => (false, m),
        }
    }
}

/// One operation at a time: starting one makes the wizard busy, and while
/// it is busy a further start is refused and changes nothing.
pub proof fn law_one_operation_at_a_time(s: BridgeSetup)
    ensures
        s.after_begin().busy,
        s.busy ==> s.after_begin() == s,
        s.after_begin().after_begin() == s.after_begin(),
{
}

// ---------------------------------------------------------------- download

/// Progress of the Roon Bridge download.
pub struct DownloadProgress {
    /// Bytes received.
    pub got: u64,
    /// The last percentage reported, -1 before the first.
    pub last_pct: i64,
}

/// The percentage of `got` out of `total`.
pub open spec fn pct_spec(got: u64, total: u64) -> i64 {
    ((got * 100) / total as int) as i64
}

impl DownloadProgress {
    pub fn new() -> (r: DownloadProgress)
        ensures
            r.got == 0,
            r.last_pct == -1,
    {
        DownloadProgress { got: 0, last_pct: -1 }
    }

    /// A chunk of `len` bytes arrived, out of `total` when the server said.
    /// Returns the percentage to report, only when it changed.
    pub fn on_chunk(&mut self, len: u64, total: Option<u64>) -> (r: Option<i64>)
        requires
            old(self).got + len <= u64::MAX,
            total matches Some(t) ==> (t > 0 ==> (old(self).got + len) * 100 <= u64::MAX),
        ensures
            final(self).got == old(self).got + len,
            ({
                let got = (old(self).got + len) as u64;
                if total matches Some(t) && t > 0 {
                    if pct_spec(got, total->0) != old(self).last_pct {
                        r == Some(pct_spec(got, total->0)) && final(self).last_pct == pct_spec(
                            got,
                            total->0,
                        )
                    } else {
                        r is None && final(self).last_pct == old(self).last_pct
                    }
                } else {
                    r is None && final(self).last_pct == old(self).last_pct
                }
            }),
    {
        self.got = self.got + len;
        match total {
            Some(t) => {
                if t > 0 {
                    let pct: i64 = #[verifier::truncate] ((self.got * 100 / t) as i64);
                    if pct != self.last_pct {
                        self.last_pct = pct;
                        return Some(pct);
                    }
                }
                None
            },
            None => None,
        }
    }
}

/// Within the announced size the percentage stays between 0 and 100.
pub proof fn law_percentage_in_range(got: u64, total: u64)
    requires
        0 < total,
        got <= total,
    ensures
        0 <= (got * 100) / (total as int) <= 100,
{
    assert(0 <= (got * 100) / (total as int) <= 100) by (nonlinear_arith)
        requires
            0 < total,
            got <= total,
    ;
}

/// Reported percentages only rise: more bytes of the same download never
/// give a smaller percentage, and `on_chunk` reports one only when it
/// differs from the last, so each report is above the one before.
pub proof fn law_percentage_rises(got: u64, more: u64, total: u64)
    requires
        0 < total,
        got <= more,
        more * 100 <= i64::MAX,
    ensures
        pct_spec(got, total) <= pct_spec(more, total),
{
    let a: int = got * 100;
    let b: int = more * 100;
    let t: int = total as int;
    assert(0 <= a / t <= b / t <= b) by (nonlinear_arith)
        requires
            0 < t,
            0 <= a <= b,
    ;
}

/// The status line while downloading.
pub fn download_status(pct: i64) -> (r: String)
    ensures
        r@ == "Downloading Roon Bridge… "@ + crate::text::int_decimal(pct as int) + "%"@,
{
    let d = crate::text::i64_decimal_string(pct);
    let mut t = cat("Downloading Roon Bridge… ", d.as_str());
    t.append("%");
    t
}

// ---------------------------------------------------------------- device settings

/// The settings RAATServer gets for the desktop mix: the ALSA `pipewire`
/// PCM under the device's display name, its identity kept, and no volume
/// block, so Roon falls back to software volume.
pub open spec fn desktop_mix_spec(cur: JsonV) -> JsonV {
    JsonV::Object(
        seq![
            ("output"@, JsonV::Object(
                seq![
                    ("type"@, JsonV::Str("alsa"@)),
                    ("device"@, JsonV::Str(PIPEWIRE_DEVICE@)),
                    ("name"@, jget(jget(cur, "output"@), "name"@)),
                ],
            )),
            ("unique_id"@, jget(cur, "unique_id"@)),
            ("external_config"@, jget(cur, "external_config"@)),
        ],
    )
}

fn str_json(s: &str) -> (r: Json)
    ensures
        jview(r) == JsonV::Str(s@),
{
    Json::Str(owned(s))
}

pub fn desktop_mix_settings(cur: &Json) -> (r: Json)
    ensures
        jview(r) == desktop_mix_spec(jview(*cur)),
{
    let out = get_or_null(cur, "output");
    let name = get_or_null(&out, "name");
    let mut output: Vec<(String, Json)> = Vec::new();
    output.push((owned("type"), str_json("alsa")));
    output.push((owned("device"), str_json(PIPEWIRE_DEVICE)));
    output.push((owned("name"), name));
    let mut top: Vec<(String, Json)> = Vec::new();
    top.push((owned("output"), Json::Object(output)));
    top.push((owned("unique_id"), get_or_null(cur, "unique_id")));
    top.push((owned("external_config"), get_or_null(cur, "external_config")));
    let r = Json::Object(top);
    proof {
        crate::json::lemma_jview_pairs(output@);
        crate::json::lemma_jview_pairs(top@);
        assert(crate::json::jview_pairs(output@) =~= seq![
            ("type"@, JsonV::Str("alsa"@)),
            ("device"@, JsonV::Str(PIPEWIRE_DEVICE@)),
            ("name"@, jget(jget(jview(*cur), "output"@), "name"@)),
        ]);
        assert(crate::json::jview_pairs(top@) =~= seq![
            ("output"@, jview(Json::Object(output))),
            ("unique_id"@, jget(jview(*cur), "unique_id"@)),
            ("external_config"@, jget(jview(*cur), "external_config"@)),
        ]);
    }
    r
}

/// The originals store: the recorded object, or an empty object when none
/// was recorded or the file holds something else.
pub open spec fn originals_base(o: Option<JsonV>) -> JsonV {
    match o {
        Some(JsonV::Object(s)) => JsonV::Object(s),
        _ => JsonV::Object(Seq::empty()),
    }
}

pub open spec fn opt_jview(o: Option<Json>) -> Option<JsonV> {
    match o {
        Some(j) => Some(jview(j)),
        None => None,
    }
}

/// The ALSA device the settings `cur` name, when they name one as text.
pub open spec fn current_device(cur: JsonV) -> Option<Seq<char>> {
    jstr(jget(jget(cur, "output"@), "device"@))
}

/// What setting a device's mode writes.
pub enum ModeChange {
    /// The device already plays into the desktop mix.
    AlreadyDesktopMix,
    /// Write `originals` (when some) to the originals store, then `settings`
    /// to the device's settings file.
    Write { originals: Option<Json>, settings: Json },
}

fn normalize_originals(o: Option<Json>) -> (r: Json)
    ensures
        jview(r) == originals_base(opt_jview(o)),
{
    match o {
        Some(Json::Object(pairs)) => Json::Object(pairs),
        _ => {
            let r = Json::Object(Vec::new());
            assert(crate::json::jview_pairs(Seq::<(String, Json)>::empty()) =~= Seq::empty());
            r
        },
    }
}

/// Setting device `id` (whose current settings are `current`) to `mode`,
/// given the recorded originals: switching to the desktop mix records the
/// current settings as the device's original; switching back restores them.
pub fn device_mode_change(id: &str, mode: &str, current: &Json, originals: Option<Json>) -> (r: Result<
    ModeChange,
    SetupError,
>)
    ensures
        ({
            let cur = jview(*current);
            let base = originals_base(opt_jview(originals));
            &&& mode@ == "pipewire"@ && current_device(cur) == Some(PIPEWIRE_DEVICE@) ==> (r matches Ok(
                ModeChange::AlreadyDesktopMix,
            ))
            &&& mode@ == "pipewire"@ && current_device(cur) != Some(PIPEWIRE_DEVICE@) ==> (r matches Ok(
                ModeChange::Write { originals: Some(o), settings },
            ) && jview(o) == jset(base, id@, cur) && jview(settings) == desktop_mix_spec(cur))
            &&& mode@ == "exclusive"@ && jlookup(base, id@) is Some ==> (r matches Ok(
                ModeChange::Write { originals: None, settings },
            ) && Some(jview(settings)) == jlookup(base, id@))
            &&& mode@ == "exclusive"@ && jlookup(base, id@) is None ==> (r matches Err(
                SetupError::NoSavedSettings,
            ))
            &&& mode@ != "pipewire"@ && mode@ != "exclusive"@ ==> (r matches Err(
                SetupError::UnknownMode(m),
            ) && m@ == mode@)
        }),
{
    proof {
        reveal_strlit("pipewire");
        reveal_strlit("exclusive");
        assert("pipewire"@.len() == 8 && "exclusive"@.len() == 9);
    }
    let base = normalize_originals(originals);
    let out = get_or_null(current, "output");
    let device = get_str(&out, "device");
    let has_original = match get(&base, id) {
        Some(_) => true,
        None => false,
    };
    match plan_device_mode(mode, device, has_original) {
        Ok(ModePlan::AlreadyDesktopMix) => Ok(ModeChange::AlreadyDesktopMix),
        Ok(ModePlan::SaveAndSwitchToDesktopMix) => {
            let settings = desktop_mix_settings(current);
            let o = put(base, id, current.copy());
            Ok(ModeChange::Write { originals: Some(o), settings })
        },
        Ok(ModePlan::RestoreOriginal) => {
            let settings = match get(&base, id) {
                Some(x) => x.copy(),
                None => Json::Null,
            };
            Ok(ModeChange::Write { originals: None, settings })
        },
        Err(e) => Err(e),
    }
}

/// Switching a device to the desktop mix and back puts its settings back
/// exactly as they were, and a second switch to the desktop mix changes
/// nothing.
pub proof fn law_desktop_mix_roundtrip(cur: JsonV, originals: Option<JsonV>, id: Seq<char>)
    ensures
        jlookup(jset(originals_base(originals), id, cur), id) == Some(cur),
        current_device(desktop_mix_spec(cur)) == Some(PIPEWIRE_DEVICE@),
{
    law_set_then_lookup(originals_base(originals), id, cur, id);
    reveal_strlit("output");
    reveal_strlit("type");
    reveal_strlit("device");
    let inner = seq![
        ("type"@, JsonV::Str("alsa"@)),
        ("device"@, JsonV::Str(PIPEWIRE_DEVICE@)),
        ("name"@, jget(jget(cur, "output"@), "name"@)),
    ];
    let top = seq![
        ("output"@, JsonV::Object(inner)),
        ("unique_id"@, jget(cur, "unique_id"@)),
        ("external_config"@, jget(cur, "external_config"@)),
    ];
    assert(crate::json::key_index(top, "output"@) == 0);
    assert("type"@ != "device"@) by {
        assert("type"@.len() == 4 && "device"@.len() == 6);
    }
    assert(inner.drop_first()[0].0 == "device"@);
    assert(crate::json::key_index(inner.drop_first(), "device"@) == 0);
    assert(crate::json::key_index(inner, "device"@) == 1);
}

/// The list entry of device `id` from its RAATServer settings.
pub fn device_entry_from_settings(id: String, settings: &Json) -> (r: DeviceEntry)
    ensures
        r.id == id,
        r.device@ == match current_device(jview(*settings)) {
            Some(d) => d,
            None => Seq::empty(),
        },
        r.name@ == match jstr(jget(jget(jview(*settings), "output"@), "name"@)) {
            Some(n) => n,
            None => r.device@,
        },
        r.mode@ == device_mode_spec(r.device@),
{
    let out = get_or_null(settings, "output");
    let device = get_str(&out, "device");
    let name = get_str(&out, "name");
    device_entry(id, device, name)
}

// ---------------------------------------------------------------- settings files

/// The settings file of device `id`; the id also names a file, so only the
/// hex stems RAATServer generates are accepted.
pub fn device_settings_file(id: &str) -> (r: Result<String, SetupError>)
    ensures
        valid_device_id_spec(id@) ==> (r matches Ok(n) && n@ == device_file_name_spec(id@)),
        !valid_device_id_spec(id@) ==> r matches Err(SetupError::BadDeviceId),
{
    if valid_device_id(id) {
        Ok(device_file_name(id))
    } else {
        Err(SetupError::BadDeviceId)
    }
}

/// The originals store as read from its text: absent when there is no file
/// or it does not parse.
pub open spec fn originals_of_text(t: Option<String>) -> Option<JsonV> {
    match t {
        Some(text) => match json_parse_spec(text@) {
            Ok(v) => Some(v),
            Err(_) => None,
        },
        None => None,
    }
}

/// What setting a device's mode writes, as the texts of the files.
pub enum ModeChangeText {
    /// The device already plays into the desktop mix.
    AlreadyDesktopMix,
    /// Write `originals` (when some) to the originals store, then `settings`
    /// to the device's settings file.
    Write { originals: Option<String>, settings: String },
}

/// Setting device `id`, whose settings file holds `settings_text`, to
/// `mode`, given the text of the originals store (none when there is no
/// such file): the id is checked, the settings parsed, and the texts to
/// write are those of the documents `device_mode_change` decides on.
pub fn device_mode_change_text(id: &str, mode: &str, settings_text: &str, originals_text: Option<
    String,
>) -> (r: Result<ModeChangeText, SetupError>)
    ensures
        !valid_device_id_spec(id@) ==> r matches Err(SetupError::BadDeviceId),
        valid_device_id_spec(id@) ==> match json_parse_spec(settings_text@) {
            Err(m) => r matches Err(SetupError::BadSettings(e)) && e@ == m,
            Ok(cur) => {
                let base = originals_base(originals_of_text(originals_text));
                &&& mode@ == "pipewire"@ && current_device(cur) == Some(PIPEWIRE_DEVICE@) ==> (r matches Ok(
                    ModeChangeText::AlreadyDesktopMix,
                ))
                &&& mode@ == "pipewire"@ && current_device(cur) != Some(PIPEWIRE_DEVICE@) ==> (r matches Ok(
                    ModeChangeText::Write { originals: Some(o), settings },
                ) && o@ == json_doc_text(jset(base, id@, cur)) && settings@ == json_doc_text(
                    desktop_mix_spec(cur),
                ))
                &&& mode@ == "exclusive"@ && jlookup(base, id@) is Some ==> (r matches Ok(
                    ModeChangeText::Write { originals: None, settings },
                ) && settings@ == json_doc_text(jlookup(base, id@)->0))
                &&& mode@ == "exclusive"@ && jlookup(base, id@) is None ==> (r matches Err(
                    SetupError::NoSavedSettings,
                ))
                &&& mode@ != "pipewire"@ && mode@ != "exclusive"@ ==> (r matches Err(
                    SetupError::UnknownMode(m),
                ) && m@ == mode@)
            },
        },
{
    if !valid_device_id(id) {
        return Err(SetupError::BadDeviceId);
    }
    let current = match parse_json(settings_text) {
        Ok(j) => j,
        Err(m) => return Err(SetupError::BadSettings(m)),
    };
    let originals = match originals_text {
        Some(t) => match parse_json(t.as_str()) {
            Ok(j) => Some(j),
            Err(_) => None,
        },
        None => None,
    };
    match device_mode_change(id, mode, &current, originals) {
        Ok(ModeChange::AlreadyDesktopMix) => Ok(ModeChangeText::AlreadyDesktopMix),
        Ok(ModeChange::Write { originals, settings }) => {
            let o = match originals {
                Some(o) => Some(json_text(&o)),
                None => None,
            };
            Ok(ModeChangeText::Write { originals: o, settings: json_text(&settings) })
        },
        Err(e) => Err(e),
    }
}

/// A file name of the form `device_<id>.json`.
pub open spec fn is_device_file(name: Seq<char>) -> bool {
    starts_with(name, "device_"@) && ends_with(name.skip(7), ".json"@)
}

/// The fields of a device's list entry: id, display name, ALSA device and mode.
pub open spec fn entry_fields(id: Seq<char>, settings: JsonV) -> (Seq<char>, Seq<char>, Seq<char>, Seq<char>) {
    let device = match current_device(settings) {
        Some(d) => d,
        None => Seq::empty(),
    };
    let name = match jstr(jget(jget(settings, "output"@), "name"@)) {
        Some(n) => n,
        None => device,
    };
    (id, name, device, device_mode_spec(device))
}

pub open spec fn entry_view(e: DeviceEntry) -> (Seq<char>, Seq<char>, Seq<char>, Seq<char>) {
    (e.id@, e.name@, e.device@, e.mode@)
}

/// The entries of the settings files `files` (name and text), in their
/// order: one per file whose name has the device form and whose text parses.
pub open spec fn listed_devices(files: Seq<(String, String)>) -> Seq<(Seq<char>, Seq<char>, Seq<char>, Seq<char>)>
    decreases files.len(),
{
    if files.len() == 0 {
        Seq::empty()
    } else {
        let rest = listed_devices(files.drop_last());
        let name = files.last().0@;
        match json_parse_spec(files.last().1@) {
            Ok(v) => if is_device_file(name) {
                rest.push(entry_fields(name.subrange(7, name.len() - 5), v))
            } else {
                rest
            },
            Err(_) => rest,
        }
    }
}

/// The device list of the settings files `files`, sorted by display name
/// (stably, so files keep their order among equal names).
pub fn device_list(files: &Vec<(String, String)>) -> (r: Vec<DeviceEntry>)
    ensures
        exists|u: Seq<DeviceEntry>|
            u.map_values(|e: DeviceEntry| entry_view(e)) == listed_devices(files@) && r@
                == sort_by_name_spec(u),
{
    let mut out: Vec<DeviceEntry> = Vec::new();
    let mut i: usize = 0;
    assert(files@.take(0) =~= Seq::<(String, String)>::empty());
    while i < files.len()
        invariant
            i <= files@.len(),
            out@.map_values(|e: DeviceEntry| entry_view(e)) == listed_devices(files@.take(i as int)),
        decreases files.len() - i,
    {
        proof {
            assert(files@.take(i + 1).drop_last() =~= files@.take(i as int));
            assert(files@.take(i + 1).last() == files@[i as int]);
        }
        let ghost before = out@;
        match device_id_from_file_name(files[i].0.as_str()) {
            Some(id) => match parse_json(files[i].1.as_str()) {
                Ok(j) => {
                    let e = device_entry_from_settings(id, &j);
                    out.push(e);
                    assert(out@.map_values(|e: DeviceEntry| entry_view(e)) =~= before.map_values(
                        |e: DeviceEntry| entry_view(e),
                    ).push(entry_view(e)));
                },
                Err(_) => {},
            },
            None => {},
        }
        i = i + 1;
    }
    assert(files@.take(files@.len() as int) =~= files@);
    let ghost u = out@;
    sort_devices(&mut out);
    out
}

/// A list entry as the device list's JSON holds it.
pub open spec fn entry_json(f: (Seq<char>, Seq<char>, Seq<char>, Seq<char>)) -> JsonV {
    JsonV::Object(
        seq![
            ("id"@, JsonV::Str(f.0)),
            ("name"@, JsonV::Str(f.1)),
            ("device"@, JsonV::Str(f.2)),
            ("mode"@, JsonV::Str(f.3)),
        ],
    )
}

/// The JSON array of list entries.
pub fn device_entries_json(entries: &Vec<DeviceEntry>) -> (r: Json)
    ensures
        jview(r) == JsonV::Array(entries@.map_values(|e: DeviceEntry| entry_json(entry_view(e)))),
{
    let mut out: Vec<Json> = Vec::new();
    let mut i: usize = 0;
    while i < entries.len()
        invariant
            i <= entries@.len(),
            out@.len() == i,
            forall|k: int| 0 <= k < i ==> jview(#[trigger] out@[k]) == entry_json(entry_view(entries@[k])),
        decreases entries.len() - i,
    {
        let e = &entries[i];
        let mut pairs: Vec<(String, Json)> = Vec::new();
        pairs.push((owned("id"), Json::Str(e.id.clone())));
        pairs.push((owned("name"), Json::Str(e.name.clone())));
        pairs.push((owned("device"), Json::Str(e.device.clone())));
        pairs.push((owned("mode"), Json::Str(e.mode.clone())));
        proof {
            crate::json::lemma_jview_pairs(pairs@);
            assert(crate::json::jview_pairs(pairs@) =~= seq![
                ("id"@, JsonV::Str(e.id@)),
                ("name"@, JsonV::Str(e.name@)),
                ("device"@, JsonV::Str(e.device@)),
                ("mode"@, JsonV::Str(e.mode@)),
            ]);
        }
        out.push(Json::Object(pairs));
        i = i + 1;
    }
    proof {
        crate::json::lemma_jview_seq(out@);
        assert(crate::json::jview_seq(out@) =~= entries@.map_values(
            |e: DeviceEntry| entry_json(entry_view(e)),
        ));
    }
    Json::Array(out)
}

/// The device list of the settings files `files` as the JSON text the UI
/// reads: an array of `{id, name, device, mode}`, sorted by display name.
pub fn device_list_text(files: &Vec<(String, String)>) -> (r: String)
    ensures
        exists|u: Seq<DeviceEntry>|
            u.map_values(|e: DeviceEntry| entry_view(e)) == listed_devices(files@) && r@
                == json_doc_text(
                JsonV::Array(
                    sort_by_name_spec(u).map_values(|e: DeviceEntry| entry_json(entry_view(e))),
                ),
            ),
{
    let list = device_list(files);
    let j = device_entries_json(&list);
    json_text(&j)
}

} // verus!
