//! Tests of the command parser and the line framing.

use ftp_server::command::{to_uppercase, FTPCommand};
use ftp_server::framing::LineReader;

#[test]
fn to_uppercase_shifts_only_lowercase() {
    let mut v = b"cWd ../Dir-7".to_vec();
    to_uppercase(&mut v);
    assert_eq!(v, b"CWD ../DIR-7".to_vec());
}

#[test]
fn parse_simple_verbs() {
    assert!(matches!(FTPCommand::new(b"PWD".to_vec()), FTPCommand::Pwd));
    assert!(matches!(FTPCommand::new(b"NOOP".to_vec()), FTPCommand::NoOp));
    assert!(matches!(FTPCommand::new(b"AUTH".to_vec()), FTPCommand::Auth));
    assert!(matches!(FTPCommand::new(b"SYST".to_vec()), FTPCommand::Syst));
    assert!(matches!(FTPCommand::new(b"TYPE".to_vec()), FTPCommand::Type));
    assert!(matches!(FTPCommand::new(b"PASV".to_vec()), FTPCommand::Pasv));
    assert!(matches!(FTPCommand::new(b"CDUP".to_vec()), FTPCommand::CdUp));
}

#[test]
fn parse_verbs_are_case_insensitive() {
    assert!(matches!(FTPCommand::new(b"pwd".to_vec()), FTPCommand::Pwd));
    assert!(matches!(FTPCommand::new(b"CdUp".to_vec()), FTPCommand::CdUp));
    assert!(matches!(FTPCommand::new(b"syst".to_vec()), FTPCommand::Syst));
}

#[test]
fn parse_unknown_verb_is_uppercased() {
    match FTPCommand::new(b"foo".to_vec()) {
        FTPCommand::Unknown(v) => assert_eq!(v, b"FOO".to_vec()),
        other => panic!("expected Unknown, got {}", other.verb_name()),
    }
    match FTPCommand::new(b"FoO".to_vec()) {
        FTPCommand::Unknown(v) => assert_eq!(v, b"FOO".to_vec()),
        _ => panic!("expected Unknown"),
    }
    match FTPCommand::new(b"FOO".to_vec()) {
        FTPCommand::Unknown(v) => assert_eq!(v, b"FOO".to_vec()),
        _ => panic!("expected Unknown"),
    }
}

#[test]
fn parse_argument_is_everything_after_first_space() {
    match FTPCommand::new(b"CWD dir with spaces".to_vec()) {
        FTPCommand::Cwd(Some(a)) => assert_eq!(a, b"dir with spaces".to_vec()),
        _ => panic!("expected Cwd with argument"),
    }
}

#[test]
fn parse_argument_case_is_kept() {
    match FTPCommand::new(b"cwd MixedCase".to_vec()) {
        FTPCommand::Cwd(Some(a)) => assert_eq!(a, b"MixedCase".to_vec()),
        _ => panic!("expected Cwd with argument"),
    }
}

#[test]
fn parse_path_commands_without_argument() {
    assert!(matches!(FTPCommand::new(b"LIST".to_vec()), FTPCommand::List(None)));
    assert!(matches!(FTPCommand::new(b"CWD".to_vec()), FTPCommand::Cwd(None)));
    assert!(matches!(FTPCommand::new(b"MKD".to_vec()), FTPCommand::Mkd(None)));
    assert!(matches!(FTPCommand::new(b"RMD".to_vec()), FTPCommand::Rmd(None)));
}

#[test]
fn parse_user_keeps_name_and_defaults_to_empty() {
    match FTPCommand::new(b"USER bob".to_vec()) {
        FTPCommand::User(u) => assert_eq!(u, b"bob".to_vec()),
        _ => panic!("expected User"),
    }
    match FTPCommand::new(b"USER".to_vec()) {
        FTPCommand::User(u) => assert_eq!(u, b"".to_vec()),
        _ => panic!("expected User"),
    }
}

#[test]
fn parse_mkd_and_rmd_and_list() {
    match FTPCommand::new(b"MKD sub/dir".to_vec()) {
        FTPCommand::Mkd(Some(a)) => assert_eq!(a, b"sub/dir".to_vec()),
        _ => panic!("expected Mkd"),
    }
    match FTPCommand::new(b"RMD old".to_vec()) {
        FTPCommand::Rmd(Some(a)) => assert_eq!(a, b"old".to_vec()),
        _ => panic!("expected Rmd"),
    }
    match FTPCommand::new(b"LIST .".to_vec()) {
        FTPCommand::List(Some(a)) => assert_eq!(a, b".".to_vec()),
        _ => panic!("expected List"),
    }
}

#[test]
fn framing_collects_one_line_and_strips_terminator() {
    let mut r = LineReader::new();
    let mut got = None;
    for &b in b"USER bob\r\n" {
        got = r.push_byte(b);
    }
    assert_eq!(got, Some(b"USER bob".to_vec()));
    assert!(r.buf.is_empty());
}

#[test]
fn framing_strips_a_single_leading_space() {
    let mut r = LineReader::new();
    let mut got = None;
    for &b in b"  PWD\r\n" {
        got = r.push_byte(b);
    }
    assert_eq!(got, Some(b" PWD".to_vec()));
}

#[test]
fn framing_keeps_incomplete_lines() {
    let mut r = LineReader::new();
    assert_eq!(r.push_byte(b'P'), None);
    assert_eq!(r.push_byte(b'W'), None);
    assert_eq!(r.push_byte(b'D'), None);
    assert_eq!(r.push_byte(b'\r'), None);
    assert_eq!(r.push_byte(b'\n'), Some(b"PWD".to_vec()));
    assert_eq!(r.push_byte(b'X'), None);
    assert_eq!(r.buf, b"X".to_vec());
}

#[test]
fn verb_names_follow_the_table() {
    assert_eq!(FTPCommand::new(b"CDUP".to_vec()).verb_name(), "CDUP");
    assert_eq!(FTPCommand::new(b"LIST x".to_vec()).verb_name(), "LIST");
    assert_eq!(FTPCommand::new(b"USER bob".to_vec()).verb_name(), "USER");
    assert_eq!(FTPCommand::new(b"foo".to_vec()).verb_name(), "UNKN");
}
