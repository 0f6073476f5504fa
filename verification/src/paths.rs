//! The files and directories the tool uses.
//!
//! Paths are kept as the bytes the operating system uses for them, so a
//! directory whose name is not UTF-8 is kept exactly. The user's configuration
//! and home directories come from the `dirs` crate; creating directories that
//! are missing is left to the caller.

use vstd::prelude::*;
use vstd::slice::slice_to_vec;
use vstd::string::StringSliceAdditionalSpecFns;

verus! {

broadcast use vstd::string::group_string_axioms;

/// The path separator, `/`.
pub open spec fn separator() -> u8 {
    47u8
}

/// `base` joined with `part` as `Path::join` does on Unix: an absolute `part`
/// replaces `base`; otherwise a `/` separates them unless `base` is empty or
/// already ends in one.
pub open spec fn path_join(base: Seq<u8>, part: Seq<u8>) -> Seq<u8> {
    if part.len() > 0 && part[0] == separator() {
        part
    } else if base.len() == 0 || base.last() == separator() {
        base + part
    } else {
        base + seq![separator()] + part
    }
}

/// The directory that stands in for a missing user directory: the working directory.
pub open spec fn fallback_dir() -> Seq<u8> {
    ".".spec_bytes()
}

/// The base directory that was found, or the working directory where none was.
pub open spec fn dir_or_fallback(base: Option<Seq<u8>>) -> Seq<u8> {
    match base {
        Some(b) => b,
        None => fallback_dir(),
    }
}

/// The tool's configuration directory under the user's configuration directory `base`.
pub open spec fn config_dir_under(base: Option<Seq<u8>>) -> Seq<u8> {
    path_join(dir_or_fallback(base), "domainhdlr".spec_bytes())
}

/// The directory of the installed binaries under the user's home directory `home`.
pub open spec fn bin_dir_under(home: Option<Seq<u8>>) -> Seq<u8> {
    path_join(dir_or_fallback(home), ".local/bin".spec_bytes())
}

/// The view of an optional path.
pub open spec fn opt_bytes(o: Option<Vec<u8>>) -> Option<Seq<u8>> {
    match o {
        Some(p) => Some(p@),
        None => None,
    }
}

/// The UTF-8 bytes of `s`, as a path.
pub fn text_path(s: &str) -> (r: Vec<u8>)
    ensures
        r@ == s.spec_bytes(),
{
    slice_to_vec(s.as_bytes())
}

/// `Path::join` on Unix, on paths held as bytes.
pub fn join_path(base: &[u8], part: &[u8]) -> (r: Vec<u8>)
    ensures
        r@ == path_join(base@, part@),
{
    if part.len() > 0 && part[0] == 47u8 {
        return slice_to_vec(part);
    }
    let mut r = slice_to_vec(base);
    if base.len() > 0 && base[base.len() - 1] != 47u8 {
        r.push(47u8);
    }
    let mut rest = slice_to_vec(part);
    r.append(&mut rest);
    proof {
        if base@.len() > 0 {
            assert(base@.last() == base@[base@.len() - 1]);
        }
    }
    r
}

/// Names the text that `String::from_utf8_lossy` makes of `bytes`: each run of
/// bytes that is not UTF-8 becomes U+FFFD.
pub uninterp spec fn lossy_utf8(bytes: Seq<u8>) -> Seq<char>;

/// A path as text, through `String::from_utf8_lossy`: the result is
/// `lossy_utf8` of the bytes, and their decoding where they are valid UTF-8.
#[verifier::external_body]
pub fn path_text(path: &[u8]) -> (r: String)
    ensures
        r@ == lossy_utf8(path@),
        vstd::utf8::valid_utf8(path@) ==> r@ == vstd::utf8::decode_utf8(path@),
{
    String::from_utf8_lossy(path).into_owned()
}

/// The user's configuration directory as `dirs::config_dir` finds it (on Linux
/// `$XDG_CONFIG_HOME` when absolute, else `$HOME/.config`), as its bytes
/// (`into_encoded_bytes`, which on Unix are the bytes of the path).
/// The answer depends on the environment, so nothing is stated of it.
#[verifier::external_body]
fn user_config_dir() -> (r: Option<Vec<u8>>) {
    match dirs::config_dir() {
        Some(p) => Some(p.into_os_string().into_encoded_bytes()),
        None => None,
    }
}

/// The user's home directory as `dirs::home_dir` finds it (on Unix `$HOME`,
/// else the password database), as its bytes (`into_encoded_bytes`, which on
/// Unix are the bytes of the path).
/// The answer depends on the environment, so nothing is stated of it.
#[verifier::external_body]
pub(crate) fn user_home_dir() -> (r: Option<Vec<u8>>) {
    match dirs::home_dir() {
        Some(p) => Some(p.into_os_string().into_encoded_bytes()),
        None => None,
    }
}

/// The tool's configuration directory, given the user's configuration directory
/// (or none, in which case the working directory is used).
pub fn config_dir_in(base: Option<Vec<u8>>) -> (r: Vec<u8>)
    ensures
        r@ == config_dir_under(opt_bytes(base)),
{
    let name = text_path("domainhdlr");
    match base {
        Some(b) => join_path(b.as_slice(), name.as_slice()),
        None => {
            let dot = text_path(".");
            join_path(dot.as_slice(), name.as_slice())
        },
    }
}

/// The directory of the installed binaries, given the user's home directory
/// (or none, in which case the working directory is used).
pub fn bin_dir_in(home: Option<Vec<u8>>) -> (r: Vec<u8>)
    ensures
        r@ == bin_dir_under(opt_bytes(home)),
{
    let name = text_path(".local/bin");
    match home {
        Some(h) => join_path(h.as_slice(), name.as_slice()),
        None => {
            let dot = text_path(".");
            join_path(dot.as_slice(), name.as_slice())
        },
    }
}

/// The tool's configuration directory for the current user.
pub fn config_dir() -> (r: Vec<u8>)
    ensures
        exists|base: Option<Seq<u8>>| #[trigger] config_dir_under(base) == r@,
{
    let base = user_config_dir();
    let ghost b = opt_bytes(base);
    let r = config_dir_in(base);
    assert(config_dir_under(b) == r@);
    r
}

/// The directory of the installed binaries for the current user.
pub fn bin_dir() -> (r: Vec<u8>)
    ensures
        exists|home: Option<Seq<u8>>| #[trigger] bin_dir_under(home) == r@,
{
    let home = user_home_dir();
    let ghost h = opt_bytes(home);
    let r = bin_dir_in(home);
    assert(bin_dir_under(h) == r@);
    r
}

/// The file that holds the list of domains.
pub fn config_file() -> (r: Vec<u8>)
    ensures
        exists|base: Option<Seq<u8>>|
            r@ == path_join(#[trigger] config_dir_under(base), "domainhdlr.json".spec_bytes()),
{
    config_dir_file("domainhdlr.json")
}

/// The log of the executor's output.
pub fn log_file() -> (r: Vec<u8>)
    ensures
        exists|base: Option<Seq<u8>>| r@ == path_join(#[trigger] config_dir_under(base), "log.txt".spec_bytes()),
{
    config_dir_file("log.txt")
}

/// The log of the executor's errors.
pub fn log_file_error() -> (r: Vec<u8>)
    ensures
        exists|base: Option<Seq<u8>>|
            r@ == path_join(#[trigger] config_dir_under(base), "log_error.txt".spec_bytes()),
{
    config_dir_file("log_error.txt")
}

/// The file `name` in the tool's configuration directory.
fn config_dir_file(name: &str) -> (r: Vec<u8>)
    ensures
        exists|base: Option<Seq<u8>>| r@ == path_join(#[trigger] config_dir_under(base), name.spec_bytes()),
{
    let dir = config_dir();
    let ghost b = choose|b: Option<Seq<u8>>| #[trigger] config_dir_under(b) == dir@;
    let part = text_path(name);
    let r = join_path(dir.as_slice(), part.as_slice());
    assert(r@ == path_join(config_dir_under(b), name.spec_bytes()));
    r
}

/// The file `name` in the directory of the installed binaries.
fn bin_dir_file(name: &str) -> (r: Vec<u8>)
    ensures
        exists|home: Option<Seq<u8>>| r@ == path_join(#[trigger] bin_dir_under(home), name.spec_bytes()),
{
    let dir = bin_dir();
    let ghost h = choose|h: Option<Seq<u8>>| #[trigger] bin_dir_under(h) == dir@;
    let part = text_path(name);
    let r = join_path(dir.as_slice(), part.as_slice());
    assert(r@ == path_join(bin_dir_under(h), name.spec_bytes()));
    r
}

/// Where the tool installs its own binary.
pub fn bin_path() -> (r: Vec<u8>)
    ensures
        exists|home: Option<Seq<u8>>| r@ == path_join(#[trigger] bin_dir_under(home), "domainhdlr".spec_bytes()),
{
    bin_dir_file("domainhdlr")
}

/// Where the tool installs the executor that updates the domains.
pub fn executor_path() -> (r: Vec<u8>)
    ensures
        exists|home: Option<Seq<u8>>| r@ == path_join(#[trigger] bin_dir_under(home), "executor".spec_bytes()),
{
    bin_dir_file("executor")
}

/// The executor's path under the user's home directory `home` (or the working
/// directory where there is none).
pub fn executor_path_in(home: Option<Vec<u8>>) -> (r: Vec<u8>)
    ensures
        r@ == path_join(bin_dir_under(opt_bytes(home)), "executor".spec_bytes()),
{
    let dir = bin_dir_in(home);
    let part = text_path("executor");
    join_path(dir.as_slice(), part.as_slice())
}

/// The directory of the system's service units.
pub fn systemd_user_dir() -> (r: Vec<u8>)
    ensures
        r@ == "/etc/systemd/system".spec_bytes(),
{
    text_path("/etc/systemd/system")
}

/// The service unit file of the tool.
pub fn service_path() -> (r: Vec<u8>)
    ensures
        r@ == path_join("/etc/systemd/system".spec_bytes(), "domainhdlr.service".spec_bytes()),
        r@ == "/etc/systemd/system/domainhdlr.service".spec_bytes(),
{
    let dir = systemd_user_dir();
    let part = text_path("domainhdlr.service");
    let r = join_path(dir.as_slice(), part.as_slice());
    proof {
        reveal_strlit("/etc/systemd/system");
        reveal_strlit("domainhdlr.service");
        reveal_strlit("/etc/systemd/system/domainhdlr.service");
        let a: &str = "/etc/systemd/system";
        let b: &str = "domainhdlr.service";
        let c: &str = "/etc/systemd/system/domainhdlr.service";
        assert(vstd::string::is_ascii(a) && vstd::string::is_ascii(b) && vstd::string::is_ascii(c));
        assert(r@ =~= c.spec_bytes());
    }
    r
}

/// Joining a relative part keeps the base as the start and the part as the end,
/// with one separator between them unless the base is empty or ends in one;
/// an absolute part is the whole result.
pub proof fn joined_path_keeps_base_and_part(base: Seq<u8>, part: Seq<u8>)
    ensures
        part.len() > 0 && part[0] == separator() ==> path_join(base, part) == part,
        !(part.len() > 0 && part[0] == separator()) ==> {
            let r = path_join(base, part);
            &&& r.len() >= base.len() + part.len()
            &&& r.subrange(0, base.len() as int) == base
            &&& r.subrange(r.len() - part.len(), r.len() as int) == part
            &&& (base.len() > 0 && base.last() != separator()) ==> (r.len() == base.len() + 1
                + part.len() && r[base.len() as int] == separator())
            &&& (base.len() == 0 || base.last() == separator()) ==> r.len() == base.len() + part.len()
        },
{
    if !(part.len() > 0 && part[0] == separator()) {
        let r = path_join(base, part);
        assert(r.subrange(0, base.len() as int) =~= base);
        assert(r.subrange(r.len() - part.len(), r.len() as int) =~= part);
    }
}

/// The tool's configuration directory lies in the user's configuration
/// directory where one is found, and in the working directory otherwise.
pub proof fn config_dir_lies_in_its_base(base: Option<Seq<u8>>)
    ensures
        base is None ==> config_dir_under(base) == path_join(".".spec_bytes(), "domainhdlr".spec_bytes()),
        base matches Some(b) ==> config_dir_under(base) == path_join(b, "domainhdlr".spec_bytes()),
        base matches Some(b) ==> config_dir_under(base).subrange(0, b.len() as int) == b,
{
    reveal_strlit("domainhdlr");
    let name = "domainhdlr".spec_bytes();
    let lit: &str = "domainhdlr";
    assert(vstd::string::is_ascii(lit));
    assert(name[0] != separator());
    if let Some(b) = base {
        joined_path_keeps_base_and_part(b, name);
    }
}

/// The binaries' directory lies in the user's home directory where one is
/// found, and in the working directory otherwise.
pub proof fn bin_dir_lies_in_its_home(home: Option<Seq<u8>>)
    ensures
        home is None ==> bin_dir_under(home) == path_join(".".spec_bytes(), ".local/bin".spec_bytes()),
        home matches Some(h) ==> bin_dir_under(home) == path_join(h, ".local/bin".spec_bytes()),
        home matches Some(h) ==> bin_dir_under(home).subrange(0, h.len() as int) == h,
{
    reveal_strlit(".local/bin");
    let name = ".local/bin".spec_bytes();
    let lit: &str = ".local/bin";
    assert(vstd::string::is_ascii(lit));
    assert(name[0] != separator());
    if let Some(h) = home {
        joined_path_keeps_base_and_part(h, name);
    }
}

} // verus!
