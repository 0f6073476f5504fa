//! What installing the service writes: the service unit, the line that puts
//! the binaries on the `PATH`, and the arguments that switch start on boot.

use vstd::prelude::*;

use crate::paths::{
    bin_dir_in, bin_dir_under, join_path, lossy_utf8, opt_bytes, path_join, path_text, text_path, user_home_dir,
};
use vstd::string::StringSliceAdditionalSpecFns;
use crate::text::{contains_text, has_substring};

verus! {

broadcast use vstd::string::group_string_axioms;

/// The line that adds the user's binaries to the `PATH`.
pub open spec fn export_line_text() -> Seq<char> {
    "export PATH=\"$HOME/.local/bin:$PATH\""@
}

/// The line that adds the user's binaries to the `PATH`.
pub fn export_line() -> (r: &'static str)
    ensures
        r@ == export_line_text(),
{
    "export PATH=\"$HOME/.local/bin:$PATH\""
}

/// The shell start-up file in the home directory `home`, where there is one.
pub open spec fn bashrc_path_under(home: Option<Seq<u8>>) -> Option<Seq<u8>> {
    match home {
        Some(h) => Some(path_join(h, ".bashrc".spec_bytes())),
        None => None,
    }
}

/// The shell start-up file in the home directory `home`, where there is one.
pub fn bashrc_path_in(home: Option<Vec<u8>>) -> (r: Option<Vec<u8>>)
    ensures
        opt_bytes(r) == bashrc_path_under(opt_bytes(home)),
{
    match home {
        Some(h) => {
            let name = text_path(".bashrc");
            Some(join_path(h.as_slice(), name.as_slice()))
        },
        None => None,
    }
}

/// The current user's shell start-up file, or `None` where no home directory is found.
pub fn bashrc_path() -> (r: Option<Vec<u8>>)
    ensures
        exists|home: Option<Seq<u8>>| #[trigger] bashrc_path_under(home) == opt_bytes(r),
{
    let home = user_home_dir();
    let ghost h = opt_bytes(home);
    let r = bashrc_path_in(home);
    assert(bashrc_path_under(h) == opt_bytes(r));
    r
}

/// What to do with the shell start-up file.
pub enum BashrcEdit {
    /// The file is missing: create it with this text.
    Create(String),
    /// The file lacks the export line: append this text.
    Append(String),
    /// The file has the export line already: leave it.
    Keep,
}

/// The text of the start-up file once the edit is made.
pub open spec fn bashrc_after(current: Option<Seq<char>>) -> Seq<char> {
    match current {
        None => export_line_text() + "\n"@,
        Some(c) => if has_substring(c, export_line_text()) {
            c
        } else {
            c + "\n"@ + export_line_text() + "\n"@
        },
    }
}

/// Decides how to change the start-up file so that it puts the user's
/// binaries on the `PATH`: create it where it is missing, append the export
/// line where it lacks it, leave it otherwise.
pub fn bashrc_edit(current: Option<&str>) -> (r: BashrcEdit)
    ensures
        current is None ==> (r matches BashrcEdit::Create(t) && t@ == export_line_text() + "\n"@),
        current matches Some(c) && has_substring(c@, export_line_text()) ==> r is Keep,
        current matches Some(c) && !has_substring(c@, export_line_text()) ==> (r matches BashrcEdit::Append(
            t,
        ) && t@ == "\n"@ + export_line_text() + "\n"@),
{
    let line = export_line();
    match current {
        None => {
            let mut t = String::from_str(line);
            t.append("\n");
            BashrcEdit::Create(t)
        },
        Some(c) => {
            if contains_text(c, line) {
                BashrcEdit::Keep
            } else {
                let mut t = String::from_str("\n");
                t.append(line);
                t.append("\n");
                BashrcEdit::Append(t)
            }
        },
    }
}

/// Once edited, the start-up file has the export line, and editing it again leaves it as it is.
pub proof fn bashrc_edit_settles(current: Option<Seq<char>>)
    ensures
        has_substring(bashrc_after(current), export_line_text()),
        bashrc_after(Some(bashrc_after(current))) == bashrc_after(current),
{
    let line = export_line_text();
    let after = bashrc_after(current);
    reveal_strlit("\n");
    match current {
        None => {
            assert(after.subrange(0, 0 + line.len() as int) =~= line);
        },
        Some(c) => {
            if !has_substring(c, line) {
                let start: int = c.len() as int + 1;
                assert(after.subrange(start, start + line.len() as int) =~= line);
            }
        },
    }
}

/// The service unit that runs `exec_start` as `user` in `working_dir`.
pub open spec fn service_unit_text(exec_start: Seq<char>, user: Seq<char>, working_dir: Seq<char>) -> Seq<char> {
    "[Unit]\nDescription=Domain Handler Service for DuckDNS\nAfter=network.target\n\n[Service]\nExecStart="@
        + exec_start + "\nUser="@ + user + "\nWorkingDirectory="@ + working_dir
        + "\nRestart=on-failure\nRestartSec=1s\nKillMode=mixed\n\n[Install]\nWantedBy=default.target\n"@
}

/// The service unit that runs `exec_start` as `user` in `working_dir`.
pub fn service_unit(exec_start: &str, user: &str, working_dir: &str) -> (r: String)
    ensures
        r@ == service_unit_text(exec_start@, user@, working_dir@),
{
    let mut s = String::from_str(
        "[Unit]\nDescription=Domain Handler Service for DuckDNS\nAfter=network.target\n\n[Service]\nExecStart=",
    );
    s.append(exec_start);
    s.append("\nUser=");
    s.append(user);
    s.append("\nWorkingDirectory=");
    s.append(working_dir);
    s.append("\nRestart=on-failure\nRestartSec=1s\nKillMode=mixed\n\n[Install]\nWantedBy=default.target\n");
    s
}

/// The name the unit runs as where the user's name cannot be read.
pub open spec fn user_or_anonymous(user: Option<Seq<char>>) -> Seq<char> {
    match user {
        Some(u) => u,
        None => "anonymous"@,
    }
}

/// The current user's name as `whoami::username` reads it (on Unix from the
/// password database), or `None` where it fails.
/// The answer depends on the machine, so nothing is stated of it.
#[verifier::external_body]
fn current_username() -> (r: Option<String>) {
    match whoami::username() {
        Ok(name) => Some(name),
        Err(_) => None,
    }
}

/// The view of an optional string.
pub open spec fn opt_text(o: Option<String>) -> Option<Seq<char>> {
    match o {
        Some(s) => Some(s@),
        None => None,
    }
}

/// The service unit for a user whose home directory is `home` and whose name is `user`:
/// it runs the executor, as that user, in the directory of the installed binaries,
/// both paths written as text (bytes that are not UTF-8 become U+FFFD).
pub fn service_file_content_for(home: Option<Vec<u8>>, user: Option<String>) -> (r: String)
    ensures
        r@ == service_unit_text(
            lossy_utf8(path_join(bin_dir_under(opt_bytes(home)), "executor".spec_bytes())),
            user_or_anonymous(opt_text(user)),
            lossy_utf8(bin_dir_under(opt_bytes(home))),
        ),
{
    let dir = bin_dir_in(home);
    let name = text_path("executor");
    let exec = join_path(dir.as_slice(), name.as_slice());
    let exec_text = path_text(exec.as_slice());
    let dir_text = path_text(dir.as_slice());
    let user_name = match user {
        Some(u) => u,
        None => String::from_str("anonymous"),
    };
    service_unit(exec_text.as_str(), user_name.as_str(), dir_text.as_str())
}

/// The service unit for the current user.
pub fn service_file_content() -> (r: String)
    ensures
        exists|home: Option<Seq<u8>>, user: Option<Seq<char>>|
            r@ == #[trigger] service_unit_text(
                lossy_utf8(path_join(bin_dir_under(home), "executor".spec_bytes())),
                user_or_anonymous(user),
                lossy_utf8(bin_dir_under(home)),
            ),
{
    let home = user_home_dir();
    let user = current_username();
    let ghost h = opt_bytes(home);
    let ghost u = opt_text(user);
    let r = service_file_content_for(home, user);
    assert(r@ == service_unit_text(
        lossy_utf8(path_join(bin_dir_under(h), "executor".spec_bytes())),
        user_or_anonymous(u),
        lossy_utf8(bin_dir_under(h)),
    ));
    r
}

/// The `systemctl` arguments that switch starting the service on boot on or off.
pub fn boot_systemctl_args(enable: bool) -> (r: Vec<String>)
    ensures
        r.len() == 2,
        r@[0]@ == (if enable {
            "enable"@
        } else {
            "disable"@
        }),
        r@[1]@ == "domainhdlr.service"@,
{
    let action = if enable {
        String::from_str("enable")
    } else {
        String::from_str("disable")
    };
    let mut r: Vec<String> = Vec::new();
    r.push(action);
    r.push(String::from_str("domainhdlr.service"));
    r
}

/// The unit names what it runs, as whom, and where, each on a line of its own.
pub proof fn unit_names_its_command_user_and_directory(
    exec_start: Seq<char>,
    user: Seq<char>,
    working_dir: Seq<char>,
)
    ensures
        has_substring(service_unit_text(exec_start, user, working_dir), "ExecStart="@ + exec_start + "\n"@),
        has_substring(service_unit_text(exec_start, user, working_dir), "\nUser="@ + user + "\n"@),
        has_substring(
            service_unit_text(exec_start, user, working_dir),
            "\nWorkingDirectory="@ + working_dir + "\n"@,
        ),
{
    let a = "[Unit]\nDescription=Domain Handler Service for DuckDNS\nAfter=network.target\n\n[Service]\nExecStart="@;
    let z = "\nRestart=on-failure\nRestartSec=1s\nKillMode=mixed\n\n[Install]\nWantedBy=default.target\n"@;
    reveal_strlit("[Unit]\nDescription=Domain Handler Service for DuckDNS\nAfter=network.target\n\n[Service]\nExecStart=");
    reveal_strlit("ExecStart=");
    reveal_strlit("\nUser=");
    reveal_strlit("\nWorkingDirectory=");
    reveal_strlit("\n");
    reveal_strlit("\nRestart=on-failure\nRestartSec=1s\nKillMode=mixed\n\n[Install]\nWantedBy=default.target\n");
    let u = service_unit_text(exec_start, user, working_dir);
    let e_line = "ExecStart="@ + exec_start + "\n"@;
    let u_line = "\nUser="@ + user + "\n"@;
    let w_line = "\nWorkingDirectory="@ + working_dir + "\n"@;
    let i1: int = a.len() as int - 10;
    assert(u.subrange(i1, i1 + e_line.len()) =~= e_line);
    let i2: int = a.len() as int + exec_start.len() as int;
    assert(u.subrange(i2, i2 + u_line.len()) =~= u_line);
    let i3: int = a.len() as int + exec_start.len() as int + 6 + user.len() as int;
    assert(u.subrange(i3, i3 + w_line.len()) =~= w_line);
}

} // verus!
