use domainhdlr::install::{bashrc_edit, bashrc_path, bashrc_path_in, boot_systemctl_args, export_line, service_file_content, service_file_content_for, service_unit, BashrcEdit};
use domainhdlr::text::contains_text;

const UNIT: &str = "[Unit]
Description=Domain Handler Service for DuckDNS
After=network.target

[Service]
ExecStart=/home/u/.local/bin/executor
User=alice
WorkingDirectory=/home/u/.local/bin
Restart=on-failure
RestartSec=1s
KillMode=mixed

[Install]
WantedBy=default.target
";

#[test]
fn unit_text() {
    assert_eq!(service_unit("/home/u/.local/bin/executor", "alice", "/home/u/.local/bin"), UNIT);
    assert_eq!(service_file_content_for(Some(b"/home/u".to_vec()), Some("alice".to_string())), UNIT);
}

#[test]
fn unit_without_user_name() {
    let text = service_file_content_for(None, None);
    assert!(text.contains("\nExecStart=./.local/bin/executor\n"));
    assert!(text.contains("\nUser=anonymous\n"));
    assert!(text.contains("\nWorkingDirectory=./.local/bin\n"));
}

#[test]
fn unit_with_home_that_is_not_utf8() {
    let text = service_file_content_for(Some(vec![b'/', b'h', 0xff]), Some("bob".to_string()));
    assert!(text.contains("\nExecStart=/h\u{FFFD}/.local/bin/executor\n"));
    assert!(text.contains("\nWorkingDirectory=/h\u{FFFD}/.local/bin\n"));
}

#[test]
fn unit_for_current_user() {
    let text = service_file_content();
    assert!(text.starts_with("[Unit]\n"));
    assert!(text.contains("/.local/bin/executor\nUser="));
    assert!(!text.contains("User=\n"));
}

#[test]
fn export_line_text() {
    assert_eq!(export_line(), r#"export PATH="$HOME/.local/bin:$PATH""#);
}

#[test]
fn bashrc_missing_is_created() {
    match bashrc_edit(None) {
        BashrcEdit::Create(t) => assert_eq!(t, format!("{}\n", export_line())),
        _ => panic!("expected a new file"),
    }
}

#[test]
fn bashrc_without_line_gets_it_appended() {
    match bashrc_edit(Some("alias ll='ls -l'\n")) {
        BashrcEdit::Append(t) => assert_eq!(t, format!("\n{}\n", export_line())),
        _ => panic!("expected an append"),
    }
}

#[test]
fn bashrc_with_line_is_kept() {
    let content = format!("# mine\n{}\nexport X=1\n", export_line());
    assert!(matches!(bashrc_edit(Some(&content)), BashrcEdit::Keep));
}

#[test]
fn bashrc_edit_settles_concrete() {
    let mut content = String::from("echo hi\n");
    if let BashrcEdit::Append(t) = bashrc_edit(Some(&content)) {
        content.push_str(&t);
    } else {
        panic!("expected an append");
    }
    assert!(matches!(bashrc_edit(Some(&content)), BashrcEdit::Keep));
}

#[test]
fn contains_text_cases() {
    assert!(contains_text("hello world", "o w"));
    assert!(contains_text("abc", ""));
    assert!(contains_text("", ""));
    assert!(!contains_text("ab", "abc"));
    assert!(!contains_text("aab", "abb"));
    assert!(contains_text("ñandú", "dú"));
}

#[test]
fn boot_args() {
    assert_eq!(boot_systemctl_args(true), vec!["enable".to_string(), "domainhdlr.service".to_string()]);
    assert_eq!(boot_systemctl_args(false), vec!["disable".to_string(), "domainhdlr.service".to_string()]);
}

#[test]
fn bashrc_paths() {
    assert_eq!(bashrc_path_in(Some(b"/home/u".to_vec())), Some(b"/home/u/.bashrc".to_vec()));
    assert_eq!(bashrc_path_in(Some(vec![b'/', 0xff])), Some(vec![b'/', 0xff, b'/', b'.', b'b', b'a', b's', b'h', b'r', b'c']));
    assert_eq!(bashrc_path_in(None), None);
    let expected = dirs::home_dir().map(|h| h.join(".bashrc").as_os_str().as_encoded_bytes().to_vec());
    assert_eq!(bashrc_path(), expected);
}
