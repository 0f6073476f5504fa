use domainhdlr::paths::{
    bin_dir, bin_dir_in, bin_path, config_dir, config_dir_in, config_file, executor_path, executor_path_in, join_path,
    log_file, log_file_error, path_text, service_path, systemd_user_dir, text_path,
};

fn b(s: &str) -> Vec<u8> {
    s.as_bytes().to_vec()
}

fn joined(dir: &[u8], name: &str) -> Vec<u8> {
    let mut v = dir.to_vec();
    v.push(b'/');
    v.extend_from_slice(name.as_bytes());
    v
}

#[test]
fn join_adds_one_separator() {
    assert_eq!(join_path(b"/home/u", b"a"), b("/home/u/a"));
    assert_eq!(join_path(b"/home/u/", b"a"), b("/home/u/a"));
    assert_eq!(join_path(b"", b"a"), b("a"));
    assert_eq!(join_path(b"/home/u", b"/etc"), b("/etc"));
    assert_eq!(join_path(b"rel", b""), b("rel/"));
    assert_eq!(join_path(b"x", b".local/bin"), b("x/.local/bin"));
}

#[test]
fn join_agrees_with_std() {
    for (base, part) in [("/a/b", "c"), ("/a/b/", "c/d"), ("", "x"), ("a", "/y"), ("a", ""), (".", "domainhdlr")] {
        let std_join = std::path::Path::new(base).join(part);
        assert_eq!(join_path(base.as_bytes(), part.as_bytes()), std_join.as_os_str().as_encoded_bytes());
    }
}

#[test]
fn join_keeps_bytes_that_are_not_utf8() {
    assert_eq!(join_path(&[b'/', 0xff, 0xfe], b"domainhdlr"), vec![b'/', 0xff, 0xfe, b'/', b'd', b'o', b'm', b'a', b'i', b'n', b'h', b'd', b'l', b'r']);
    assert_eq!(config_dir_in(Some(vec![b'/', 0xc3])), vec![b'/', 0xc3, b'/', b'd', b'o', b'm', b'a', b'i', b'n', b'h', b'd', b'l', b'r']);
}

#[test]
fn text_and_paths() {
    assert_eq!(text_path("ñ"), vec![0xc3, 0xb1]);
    assert_eq!(path_text(b"/home/u"), "/home/u");
    assert_eq!(path_text(&[b'/', 0xff, b'x']), "/\u{FFFD}x");
}

#[test]
fn dirs_from_bases() {
    assert_eq!(config_dir_in(Some(b("/home/u/.config"))), b("/home/u/.config/domainhdlr"));
    assert_eq!(config_dir_in(None), b("./domainhdlr"));
    assert_eq!(bin_dir_in(Some(b("/home/u"))), b("/home/u/.local/bin"));
    assert_eq!(bin_dir_in(None), b("./.local/bin"));
    assert_eq!(executor_path_in(Some(b("/root"))), b("/root/.local/bin/executor"));
}

#[test]
fn system_paths() {
    assert_eq!(systemd_user_dir(), b("/etc/systemd/system"));
    assert_eq!(service_path(), b("/etc/systemd/system/domainhdlr.service"));
}

#[test]
fn user_paths_have_their_names() {
    let dir = config_dir();
    assert!(dir.ends_with(b"/domainhdlr"));
    assert_eq!(config_file(), joined(&dir, "domainhdlr.json"));
    assert_eq!(log_file(), joined(&dir, "log.txt"));
    assert_eq!(log_file_error(), joined(&dir, "log_error.txt"));
    let bins = bin_dir();
    assert!(bins.ends_with(b"/.local/bin"));
    assert_eq!(bin_path(), joined(&bins, "domainhdlr"));
    assert_eq!(executor_path(), joined(&bins, "executor"));
}

#[test]
fn config_dir_follows_dirs_crate() {
    let expected = match dirs::config_dir() {
        Some(p) => p.join("domainhdlr"),
        None => std::path::PathBuf::from(".").join("domainhdlr"),
    };
    assert_eq!(config_dir(), expected.as_os_str().as_encoded_bytes());
    let home = match dirs::home_dir() {
        Some(p) => p.join(".local/bin"),
        None => std::path::PathBuf::from(".").join(".local/bin"),
    };
    assert_eq!(bin_dir(), home.as_os_str().as_encoded_bytes());
}
