//! Where Attacca keeps its files: pairing tokens and settings under the XDG
//! config directory, Roon Bridge under the XDG data directory, artwork under
//! the XDG cache directory.
use vstd::prelude::*;
use crate::bridge_setup::UNIT_NAME;
use crate::text::{cat, owned};

verus! {

/// `Path::join` on Unix: an absolute `part` replaces `base`; otherwise a
/// separator is put between them unless `base` is empty or ends in one.
pub open spec fn path_join(base: Seq<char>, part: Seq<char>) -> Seq<char> {
    if part.len() > 0 && part[0] == '/' {
        part
    } else if base.len() == 0 || base.last() == '/' {
        base + part
    } else {
        base + "/"@ + part
    }
}

/// `Path::new(base).join(part)`.
pub fn join(base: &str, part: &str) -> (r: String)
    ensures
        r@ == path_join(base@, part@),
{
    proof {
        reveal_strlit("/");
    }
    let lp = part.unicode_len();
    if lp > 0 && part.get_char(0) == '/' {
        return owned(part);
    }
    let lb = base.unicode_len();
    if lb == 0 || base.get_char(lb - 1) == '/' {
        cat(base, part)
    } else {
        let t = cat(base, "/");
        cat(t.as_str(), part)
    }
}

/// Calls `dirs_next::config_dir`: `$XDG_CONFIG_HOME` or `~/.config` on
/// Linux. What it returns depends on the environment, so nothing is
/// promised; a directory whose name is not valid UTF-8 comes back as `None`.
#[verifier::external_body]
fn xdg_config_home() -> (r: Option<String>) {
    dirs_next::config_dir().and_then(|p| p.into_os_string().into_string().ok())
}

/// Calls `dirs_next::data_dir`: `$XDG_DATA_HOME` or `~/.local/share` on
/// Linux. Environment-dependent, so nothing is promised; a name that is
/// not valid UTF-8 comes back as `None`.
#[verifier::external_body]
fn xdg_data_home() -> (r: Option<String>) {
    dirs_next::data_dir().and_then(|p| p.into_os_string().into_string().ok())
}

/// Calls `dirs_next::cache_dir`: `$XDG_CACHE_HOME` or `~/.cache` on Linux.
/// Environment-dependent, so nothing is promised; a name that is not valid
/// UTF-8 comes back as `None`.
#[verifier::external_body]
fn xdg_cache_home() -> (r: Option<String>) {
    dirs_next::cache_dir().and_then(|p| p.into_os_string().into_string().ok())
}

/// `<config>/attacca/<name>`, with the working directory standing in for a
/// missing config directory.
pub open spec fn config_file_spec(config_home: Option<Seq<char>>, name: Seq<char>) -> Seq<char> {
    path_join(config_dir_spec(config_home), name)
}

/// `<config>/attacca`, the directory of Attacca's configuration files.
pub open spec fn config_dir_spec(config_home: Option<Seq<char>>) -> Seq<char> {
    let base = match config_home {
        Some(c) => c,
        None => "."@,
    };
    path_join(base, "attacca"@)
}

/// Joining a relative, non-empty component ends the path with it, behind a
/// separator when the base does not end in one.
proof fn lemma_join_component(base: Seq<char>, part: Seq<char>)
    requires
        part.len() > 0,
        part[0] != '/',
        part.last() != '/',
    ensures
        path_join(base, part).len() > 0,
        path_join(base, part).last() == part.last(),
        path_join(base, part).last() != '/',
{
    reveal_strlit("/");
    let r = path_join(base, part);
    assert(r.last() == r[r.len() - 1]);
    if base.len() == 0 || base.last() == '/' {
        assert(r[r.len() - 1] == part[part.len() - 1]);
    } else {
        assert(r =~= base + ("/"@ + part));
        assert(r[r.len() - 1] == part[part.len() - 1]);
    }
}

/// Joining onto a base that is non-empty and does not end in a separator
/// puts exactly one separator in between.
proof fn lemma_join_after_name(base: Seq<char>, part: Seq<char>)
    requires
        base.len() > 0,
        base.last() != '/',
        part.len() > 0,
        part[0] != '/',
    ensures
        path_join(base, part) == base + "/"@ + part,
{
}

/// The app and the debug CLI keep their pairing tokens in two different
/// files of one directory, `<config>/attacca`, whatever the config
/// directory is: the CLI never shares the app's token file.
pub proof fn law_token_files_distinct(config_home: Option<Seq<char>>)
    ensures
        config_file_spec(config_home, "tokens.json"@) == config_dir_spec(config_home) + "/"@
            + "tokens.json"@,
        config_file_spec(config_home, "tokens-cli.json"@) == config_dir_spec(config_home) + "/"@
            + "tokens-cli.json"@,
        config_file_spec(config_home, "tokens.json"@) != config_file_spec(
            config_home,
            "tokens-cli.json"@,
        ),
{
    reveal_strlit("attacca");
    reveal_strlit("tokens.json");
    reveal_strlit("tokens-cli.json");
    let base = match config_home {
        Some(c) => c,
        None => "."@,
    };
    lemma_join_component(base, "attacca"@);
    let dir = config_dir_spec(config_home);
    lemma_join_after_name(dir, "tokens.json"@);
    lemma_join_after_name(dir, "tokens-cli.json"@);
    assert(config_file_spec(config_home, "tokens.json"@).len() != config_file_spec(
        config_home,
        "tokens-cli.json"@,
    ).len());
}

/// The file `name` of Attacca's configuration, given the config directory.
pub fn config_file_in(config_home: Option<String>, name: &str) -> (r: String)
    ensures
        r@ == config_file_spec(crate::text::opt_str(config_home), name@),
{
    let base = match config_home {
        Some(c) => c,
        None => owned("."),
    };
    let dir = join(base.as_str(), "attacca");
    join(dir.as_str(), name)
}

/// The file `name` of Attacca's configuration.
pub fn config_file(name: &str) -> (r: String)
    ensures
        exists|home: Option<Seq<char>>| r@ == config_file_spec(home, name@),
{
    config_file_in(xdg_config_home(), name)
}

/// Pairing tokens of the app: `<config>/attacca/tokens.json`.
pub fn token_store_path() -> (r: String)
    ensures
        exists|home: Option<Seq<char>>| r@ == config_file_spec(home, "tokens.json"@),
{
    config_file("tokens.json")
}

/// Pairing tokens of the CLI, which pairs as an extension of its own so a
/// debug session never fights the running app over one Core connection.
pub fn cli_token_store_path() -> (r: String)
    ensures
        exists|home: Option<Seq<char>>| r@ == config_file_spec(home, "tokens-cli.json"@),
{
    config_file("tokens-cli.json")
}

/// Where the original settings of devices switched to the desktop mix are
/// kept: in Attacca's configuration, so RAATServer's settings directory only
/// ever holds files it expects.
pub fn bridge_devices_path() -> (r: String)
    ensures
        exists|home: Option<Seq<char>>| r@ == config_file_spec(home, "bridge-devices.json"@),
{
    config_file("bridge-devices.json")
}

/// `<data>/attacca/roonbridge`: everything of the managed Roon Bridge.
pub open spec fn bridge_base_spec(data_home: Seq<char>) -> Seq<char> {
    path_join(path_join(data_home, "attacca"@), "roonbridge"@)
}

pub open spec fn program_dir_spec(data_home: Seq<char>) -> Seq<char> {
    path_join(bridge_base_spec(data_home), "RoonBridge"@)
}

pub open spec fn bridge_data_dir_spec(data_home: Seq<char>) -> Seq<char> {
    path_join(bridge_base_spec(data_home), "data"@)
}

pub open spec fn settings_dir_spec(data_home: Seq<char>) -> Seq<char> {
    path_join(path_join(bridge_data_dir_spec(data_home), "RAATServer"@), "Settings"@)
}

/// The Bridge's program directory and its data directory lie side by side
/// in its install directory: neither path is a prefix of the other, so
/// replacing the program directory leaves the data directory intact.
pub proof fn law_program_and_data_apart(data_home: Seq<char>)
    ensures
        program_dir_spec(data_home) == bridge_base_spec(data_home) + "/"@ + "RoonBridge"@,
        bridge_data_dir_spec(data_home) == bridge_base_spec(data_home) + "/"@ + "data"@,
        !crate::text::starts_with(program_dir_spec(data_home), bridge_data_dir_spec(data_home)),
        !crate::text::starts_with(bridge_data_dir_spec(data_home), program_dir_spec(data_home)),
{
    reveal_strlit("attacca");
    reveal_strlit("roonbridge");
    reveal_strlit("RoonBridge");
    reveal_strlit("data");
    reveal_strlit("/");
    lemma_join_component(data_home, "attacca"@);
    lemma_join_component(path_join(data_home, "attacca"@), "roonbridge"@);
    let b = bridge_base_spec(data_home);
    lemma_join_after_name(b, "RoonBridge"@);
    lemma_join_after_name(b, "data"@);
    let p = program_dir_spec(data_home);
    let d = bridge_data_dir_spec(data_home);
    assert(p.len() == b.len() + 11 && d.len() == b.len() + 5);
    let i: int = b.len() as int + 1;
    assert(p[i] == 'R' && d[i] == 'd');
    if crate::text::starts_with(p, d) {
        assert(p.take(d.len() as int)[i] == p[i]);
    }
}

pub open spec fn unit_path_spec(config_home: Seq<char>) -> Seq<char> {
    path_join(path_join(path_join(config_home, "systemd"@), "user"@), UNIT_NAME@)
}

pub fn bridge_base_in(data_home: &str) -> (r: String)
    ensures
        r@ == bridge_base_spec(data_home@),
{
    let a = join(data_home, "attacca");
    join(a.as_str(), "roonbridge")
}

/// The install directory of the managed Roon Bridge; none without a data directory.
pub fn base_dir() -> (r: Option<String>)
    ensures
        r matches Some(p) ==> exists|h: Seq<char>| p@ == bridge_base_spec(h),
{
    match xdg_data_home() {
        Some(h) => Some(bridge_base_in(h.as_str())),
        None => None,
    }
}

/// The Roon Bridge program directory, given the data directory.
pub fn program_dir_in(data_home: &str) -> (r: String)
    ensures
        r@ == program_dir_spec(data_home@),
{
    let b = bridge_base_in(data_home);
    join(b.as_str(), "RoonBridge")
}

/// The Bridge's data directory, given the data directory.
pub fn bridge_data_dir_in(data_home: &str) -> (r: String)
    ensures
        r@ == bridge_data_dir_spec(data_home@),
{
    let b = bridge_base_in(data_home);
    join(b.as_str(), "data")
}

/// RAATServer's settings directory, given the data directory.
pub fn settings_dir_in(data_home: &str) -> (r: String)
    ensures
        r@ == settings_dir_spec(data_home@),
{
    let d = bridge_data_dir_in(data_home);
    let r = join(d.as_str(), "RAATServer");
    join(r.as_str(), "Settings")
}

/// The systemd user unit file, given the config directory.
pub fn unit_path_in(config_home: &str) -> (r: String)
    ensures
        r@ == unit_path_spec(config_home@),
{
    let a = join(config_home, "systemd");
    let b = join(a.as_str(), "user");
    join(b.as_str(), UNIT_NAME)
}

/// The Roon Bridge program directory.
pub fn program_dir() -> (r: Option<String>)
    ensures
        r matches Some(p) ==> exists|h: Seq<char>| p@ == program_dir_spec(h),
{
    match xdg_data_home() {
        Some(h) => Some(program_dir_in(h.as_str())),
        None => None,
    }
}

/// The Bridge's data directory (its identity and device settings), which
/// survives updates of the program directory.
pub fn data_dir() -> (r: Option<String>)
    ensures
        r matches Some(p) ==> exists|h: Seq<char>| p@ == bridge_data_dir_spec(h),
{
    match xdg_data_home() {
        Some(h) => Some(bridge_data_dir_in(h.as_str())),
        None => None,
    }
}

/// RAATServer's per-device settings directory.
pub fn settings_dir() -> (r: Option<String>)
    ensures
        r matches Some(p) ==> exists|h: Seq<char>| p@ == settings_dir_spec(h),
{
    match xdg_data_home() {
        Some(h) => Some(settings_dir_in(h.as_str())),
        None => None,
    }
}

/// The systemd user unit file.
pub fn unit_path() -> (r: Option<String>)
    ensures
        r matches Some(p) ==> exists|h: Seq<char>| p@ == unit_path_spec(h),
{
    match xdg_config_home() {
        Some(h) => Some(unit_path_in(h.as_str())),
        None => None,
    }
}

/// Keeps the ASCII letters and digits of `s`.
pub open spec fn ascii_alnum_only(s: Seq<char>) -> Seq<char>
    decreases s.len(),
{
    if s.len() == 0 {
        s
    } else if is_ascii_alnum(s.last()) {
        ascii_alnum_only(s.drop_last()).push(s.last())
    } else {
        ascii_alnum_only(s.drop_last())
    }
}

pub open spec fn is_ascii_alnum(c: char) -> bool {
    ('0' <= c && c <= '9') || ('a' <= c && c <= 'z') || ('A' <= c && c <= 'Z')
}

/// The cache file name of image `key`: its ASCII letters and digits, then `.jpg`.
pub fn art_file_name(key: &str) -> (r: String)
    ensures
        r@ == ascii_alnum_only(key@) + ".jpg"@,
{
    let n = key.unicode_len();
    let mut out = String::new();
    let mut i: usize = 0;
    assert(key@.take(0) =~= Seq::<char>::empty());
    while i < n
        invariant
            n == key@.len(),
            i <= n,
            out@ == ascii_alnum_only(key@.take(i as int)),
        decreases n - i,
    {
        let c = key.get_char(i);
        proof {
            assert(key@.take(i + 1).drop_last() =~= key@.take(i as int));
            assert(key@.take(i + 1).last() == c);
        }
        if ('0' <= c && c <= '9') || ('a' <= c && c <= 'z') || ('A' <= c && c <= 'Z') {
            out.append(key.substring_char(i, i + 1));
            assert(key@.subrange(i as int, i + 1) =~= seq![c]);
            assert(out@ =~= ascii_alnum_only(key@.take(i as int)).push(c));
        }
        i = i + 1;
    }
    assert(key@.take(n as int) =~= key@);
    out.append(".jpg");
    out
}

/// `<cache>/attacca/art`, with the temporary directory standing in for a
/// missing cache directory.
pub open spec fn art_dir_spec(cache_home: Option<Seq<char>>, temp: Seq<char>) -> Seq<char> {
    let base = match cache_home {
        Some(c) => c,
        None => temp,
    };
    path_join(path_join(base, "attacca"@), "art"@)
}

pub fn art_dir_in(cache_home: Option<String>, temp: &str) -> (r: String)
    ensures
        r@ == art_dir_spec(crate::text::opt_str(cache_home), temp@),
{
    let base = match cache_home {
        Some(c) => c,
        None => owned(temp),
    };
    let a = join(base.as_str(), "attacca");
    join(a.as_str(), "art")
}

/// The artwork cache directory, given the temporary directory as fallback.
pub fn art_dir(temp: &str) -> (r: String)
    ensures
        exists|h: Option<Seq<char>>| r@ == art_dir_spec(h, temp@),
{
    art_dir_in(xdg_cache_home(), temp)
}

/// The URL the UI loads a cached image from.
pub fn file_url(path: &str) -> (r: String)
    ensures
        r@ == "file://"@ + path@,
{
    cat("file://", path)
}

/// The Core's HTTP image service: `http://<host>:<port>/api/image/`.
pub fn image_base(host: &str, port: u16) -> (r: String)
    ensures
        r@ == "http://"@ + host@ + ":"@ + crate::text::decimal(port as nat) + "/api/image/"@,
{
    let mut t = cat("http://", host);
    t.append(":");
    let d = crate::text::decimal_string(port as u64);
    t.append(d.as_str());
    t.append("/api/image/");
    t
}

} // verus!
