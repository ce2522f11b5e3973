//! Tests of the session state machine: each scenario drives the
//! dispatcher and hands it the canonicalization observations a real
//! filesystem would produce.

use ftp_server::codes::ResultCode;
use ftp_server::command::FTPCommand;
use ftp_server::session::{
    greeting, list_verdict, mkd_reply, mkd_verdict, rmd_reply, rmd_verdict, Outcome, Session,
    PASV_PORT,
};

fn segs(parts: &[&str]) -> Vec<Vec<u8>> {
    parts.iter().map(|p| p.as_bytes().to_vec()).collect()
}

fn done(o: Outcome) -> (ResultCode, Vec<u8>) {
    match o {
        Outcome::Done(r) => (r.code, r.text),
        _ => panic!("expected an immediate reply"),
    }
}

#[test]
fn greeting_is_service_ready() {
    let g = greeting();
    assert_eq!(g.code, ResultCode::ServiceReadyForNewUser);
    assert_eq!(g.text, b"Welcome to this FTP server!".to_vec());
}

#[test]
fn simple_commands_reply_in_place() {
    let mut s = Session::new();
    let (c, t) = done(s.handle_cmd(FTPCommand::Auth));
    assert_eq!((c, t), (ResultCode::CommandNotImplemented, b"Not implemented".to_vec()));
    let (c, t) = done(s.handle_cmd(FTPCommand::Syst));
    assert_eq!((c, t), (ResultCode::CommandOkay, b"I won't tell".to_vec()));
    let (c, t) = done(s.handle_cmd(FTPCommand::NoOp));
    assert_eq!((c, t), (ResultCode::CommandOkay, b"Doing nothing...".to_vec()));
    let (c, t) = done(s.handle_cmd(FTPCommand::Type));
    assert_eq!((c, t), (ResultCode::CommandOkay, b"Transfer type changed successfully".to_vec()));
    let (c, t) = done(s.handle_cmd(FTPCommand::Unknown(b"FOO".to_vec())));
    assert_eq!((c, t), (ResultCode::UnknownCommand, b"Not implemented".to_vec()));
}

#[test]
fn user_records_name_and_rejects_empty() {
    let mut s = Session::new();
    let (c, t) = done(s.handle_cmd(FTPCommand::User(b"".to_vec())));
    assert_eq!((c, t), (ResultCode::InvalidParameterOrArgument, b"Invalid username".to_vec()));
    assert_eq!(s.name, None);
    let (c, t) = done(s.handle_cmd(FTPCommand::User(b"bob".to_vec())));
    assert_eq!((c, t), (ResultCode::UserLoggedIn, b"Welcome bob!".to_vec()));
    assert_eq!(s.name, Some(b"bob".to_vec()));
}

#[test]
fn pwd_reports_the_working_directory() {
    let mut s = Session::new();
    let (c, t) = done(s.handle_cmd(FTPCommand::Pwd));
    assert_eq!((c, t), (ResultCode::PathnameCreated, b"\"/\" ".to_vec()));
    s.cwd = segs(&["sub", "dir"]);
    let (_, t) = done(s.handle_cmd(FTPCommand::Pwd));
    assert_eq!(t, b"\"/sub/dir\" ".to_vec());
}

#[test]
fn path_commands_without_argument_are_parameter_errors() {
    let mut s = Session::new();
    for cmd in [
        FTPCommand::List(None),
        FTPCommand::Cwd(None),
        FTPCommand::Mkd(None),
        FTPCommand::Rmd(None),
    ] {
        let (c, t) = done(s.handle_cmd(cmd));
        assert_eq!((c, t), (ResultCode::InvalidParameterOrArgument, b"Missing argument".to_vec()));
    }
}

#[test]
fn list_without_pasv_is_refused_and_opens_nothing() {
    let mut s = Session::new();
    let (c, t) = done(s.handle_cmd(FTPCommand::List(Some(b".".to_vec()))));
    assert_eq!((c, t), (ResultCode::ConnectionClosed, b"No opened data connection".to_vec()));
    assert!(!s.data_open);
    assert_eq!(s.cwd, segs(&[]));
}

#[test]
fn pasv_announces_the_endpoint_then_opens() {
    let mut s = Session::new();
    match s.handle_cmd(FTPCommand::Pasv) {
        Outcome::OpenPassive(r, port) => {
            assert_eq!(r.code, ResultCode::EnteringPassiveMode);
            assert_eq!(r.text, b"127,0,0,1,168,202".to_vec());
            assert_eq!(port, PASV_PORT);
        },
        _ => panic!("expected OpenPassive"),
    }
    assert!(s.pasv_done(true).is_none());
    assert!(s.data_open);
    let (c, t) = done(s.handle_cmd(FTPCommand::Pasv));
    assert_eq!((c, t), (ResultCode::DataConnectionAlreadyOpen, b"Already listening...".to_vec()));
}

#[test]
fn pasv_accept_failure_reports_service_not_available() {
    let mut s = Session::new();
    match s.handle_cmd(FTPCommand::Pasv) {
        Outcome::OpenPassive(..) => {},
        _ => panic!("expected OpenPassive"),
    }
    let r = s.pasv_done(false).expect("failure must be reported");
    assert_eq!(r.code, ResultCode::ServiceNotAvailable);
    assert_eq!(r.text, b"issues happen...".to_vec());
    assert!(!s.data_open);
}

#[test]
fn list_streams_then_closes_the_channel() {
    let root = segs(&["srv", "root"]);
    let mut s = Session::new();
    match s.handle_cmd(FTPCommand::Pasv) {
        Outcome::OpenPassive(..) => {},
        _ => panic!("expected OpenPassive"),
    }
    s.pasv_done(true);
    match s.handle_cmd(FTPCommand::List(Some(b"sub".to_vec()))) {
        Outcome::ResolveList(rel) => assert_eq!(rel, b"sub".to_vec()),
        _ => panic!("expected ResolveList"),
    }
    let ok = list_verdict(&Some(segs(&["srv", "root", "sub"])), &root).expect("in root");
    assert_eq!(ok.code, ResultCode::DataConnectionAlreadyOpen);
    assert_eq!(ok.text, b"Starting to list directory...".to_vec());
    let bye = s.list_finish().expect("channel was open");
    assert_eq!(bye.code, ResultCode::ClosingDataConnection);
    assert_eq!(bye.text, b"Transfer done".to_vec());
    assert!(!s.data_open);
    assert!(s.list_finish().is_none());
}

#[test]
fn list_of_a_missing_path_is_a_parameter_error() {
    let root = segs(&["srv", "root"]);
    let e = list_verdict(&None, &root).expect_err("missing path");
    assert_eq!(e.code, ResultCode::InvalidParameterOrArgument);
    assert_eq!(e.text, b"No such file or directory...".to_vec());
}

#[test]
fn cwd_then_pwd_round_trip() {
    let root = segs(&["srv", "root"]);
    let mut s = Session::new();
    match s.handle_cmd(FTPCommand::Cwd(Some(b"d".to_vec()))) {
        Outcome::ResolveCwd(rel, arg) => {
            assert_eq!(rel, b"d".to_vec());
            assert_eq!(arg, b"d".to_vec());
        },
        _ => panic!("expected ResolveCwd"),
    }
    let r = s.cwd_done(&Some(segs(&["srv", "root", "d"])), &root, &b"d".to_vec());
    assert_eq!(r.code, ResultCode::CommandOkay);
    assert_eq!(r.text, b"Directory changed to \"d\"".to_vec());
    let (_, t) = done(s.handle_cmd(FTPCommand::Pwd));
    assert_eq!(t, b"\"/d\" ".to_vec());
    let (c, _) = done(s.handle_cmd(FTPCommand::CdUp));
    assert_eq!(c, ResultCode::CommandOkay);
    let (_, t) = done(s.handle_cmd(FTPCommand::Pwd));
    assert_eq!(t, b"\"/\" ".to_vec());
}

#[test]
fn cdup_at_the_root_stays_at_the_root() {
    let mut s = Session::new();
    let (c, t) = done(s.handle_cmd(FTPCommand::CdUp));
    assert_eq!((c, t), (ResultCode::CommandOkay, b"Done".to_vec()));
    assert_eq!(s.cwd, segs(&[]));
}

#[test]
fn mkd_cwd_rmd_life_cycle() {
    let root = segs(&["srv", "root"]);
    let mut s = Session::new();
    // MKD newdir: the parent is the root itself.
    match s.handle_cmd(FTPCommand::Mkd(Some(b"newdir".to_vec()))) {
        Outcome::ResolveMkd(parent, name) => {
            assert_eq!(parent, b"".to_vec());
            assert_eq!(name, b"newdir".to_vec());
        },
        _ => panic!("expected ResolveMkd"),
    }
    assert!(mkd_verdict(&Some(segs(&["srv", "root"])), &root, true).is_ok());
    let r = mkd_reply(true);
    assert_eq!(r.code, ResultCode::PathnameCreated);
    assert_eq!(r.text, b"Folder successfully created!".to_vec());
    // CWD newdir succeeds now that it canonicalizes under the root.
    let r = s.cwd_done(&Some(segs(&["srv", "root", "newdir"])), &root, &b"newdir".to_vec());
    assert_eq!(r.code, ResultCode::CommandOkay);
    assert_eq!(s.cwd, segs(&["newdir"]));
    // Back at the root, RMD newdir removes it.
    done(s.handle_cmd(FTPCommand::CdUp));
    match s.handle_cmd(FTPCommand::Rmd(Some(b"newdir".to_vec()))) {
        Outcome::ResolveRmd(rel) => assert_eq!(rel, b"newdir".to_vec()),
        _ => panic!("expected ResolveRmd"),
    }
    assert!(rmd_verdict(&Some(segs(&["srv", "root", "newdir"])), &root).is_ok());
    let r = rmd_reply(true);
    assert_eq!(r.code, ResultCode::RequestedFileActionOkay);
    assert_eq!(r.text, b"Folder successfully removed!".to_vec());
    // A later CWD newdir no longer canonicalizes: not-found, unchanged.
    let r = s.cwd_done(&None, &root, &b"newdir".to_vec());
    assert_eq!(r.code, ResultCode::FileNotFound);
    assert_eq!(r.text, b"No such file or directory".to_vec());
    assert_eq!(s.cwd, segs(&[]));
}

#[test]
fn mkd_refuses_bad_names_and_bad_parents() {
    let root = segs(&["srv", "root"]);
    let mut s = Session::new();
    let (c, t) = done(s.handle_cmd(FTPCommand::Mkd(Some(b"..".to_vec()))));
    assert_eq!((c, t), (ResultCode::FileNotFound, b"Couldn't create folder".to_vec()));
    let e = mkd_verdict(&None, &root, true).expect_err("missing parent");
    assert_eq!(e.code, ResultCode::FileNotFound);
    let e = mkd_verdict(&Some(segs(&["srv", "root", "f"])), &root, false).expect_err("parent is a file");
    assert_eq!(e.code, ResultCode::FileNotFound);
    let e = mkd_verdict(&Some(segs(&["etc"])), &root, true).expect_err("parent escapes the root");
    assert_eq!(e.code, ResultCode::FileNotFound);
}

#[test]
fn rmd_refuses_what_does_not_resolve() {
    let root = segs(&["srv", "root"]);
    let e = rmd_verdict(&None, &root).expect_err("missing");
    assert_eq!(e.code, ResultCode::FileNotFound);
    assert_eq!(e.text, b"Couldn't remove folder!".to_vec());
    let e = rmd_verdict(&Some(segs(&["etc"])), &root).expect_err("escape");
    assert_eq!(e.code, ResultCode::FileNotFound);
}

#[test]
fn end_to_end_scenario() {
    let root = segs(&["srv", "root"]);
    // Connect: the greeting starts with the service-ready code.
    let g = greeting();
    assert_eq!(g.code, ResultCode::ServiceReadyForNewUser);
    let mut s = Session::new();
    // USER bob.
    let (c, t) = done(s.handle_cmd(FTPCommand::new(b"USER bob".to_vec())));
    assert_eq!((c, t), (ResultCode::UserLoggedIn, b"Welcome bob!".to_vec()));
    // PWD names "/".
    let (c, t) = done(s.handle_cmd(FTPCommand::new(b"PWD".to_vec())));
    assert_eq!((c, t), (ResultCode::PathnameCreated, b"\"/\" ".to_vec()));
    // MKD sub succeeds.
    match s.handle_cmd(FTPCommand::new(b"MKD sub".to_vec())) {
        Outcome::ResolveMkd(parent, name) => {
            assert_eq!(parent, b"".to_vec());
            assert_eq!(name, b"sub".to_vec());
        },
        _ => panic!("expected ResolveMkd"),
    }
    assert!(mkd_verdict(&Some(segs(&["srv", "root"])), &root, true).is_ok());
    assert_eq!(mkd_reply(true).code, ResultCode::PathnameCreated);
    // CWD ../../etc: canonicalizes outside the root, so it is denied
    // as not-found and the working directory stays unchanged.
    match s.handle_cmd(FTPCommand::new(b"CWD ../../etc".to_vec())) {
        Outcome::ResolveCwd(rel, _) => assert_eq!(rel, b"../../etc".to_vec()),
        _ => panic!("expected ResolveCwd"),
    }
    let r = s.cwd_done(&Some(segs(&["etc"])), &root, &b"../../etc".to_vec());
    assert_eq!(r.code, ResultCode::FileNotFound);
    assert_eq!(s.cwd, segs(&[]));
    let (_, t) = done(s.handle_cmd(FTPCommand::new(b"PWD".to_vec())));
    assert_eq!(t, b"\"/\" ".to_vec());
}
