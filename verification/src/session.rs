//! The per-connection protocol state machine. It owns the working
//! directory, the optional username and the data-channel flag, and maps
//! every parsed command to a reply and, where filesystem work is needed,
//! to a request for the driver: canonicalize this candidate path, or
//! open the passive listener. The driver performs the outside work and
//! hands the observation back to the matching `*_done` or `*_verdict`
//! function, which decides and replies.

use vstd::prelude::*;
use vstd::string::StringSliceAdditionalSpecFns;
use vstd::string::StrSliceExecFns;
use crate::codes::ResultCode;
use crate::command::{CmdModel, FTPCommand};
use crate::paths::{
    complete_path, complete_rel, complete_rel_model, is_valid_new_name, join_bytes, join_segments,
    mkd_split, mkd_split_model, sandbox_model, segs_view, valid_new_name,
};
use crate::response::{push_bytes, push_str_bytes, u64_to_dec, dec_digits, Reply, ReplyModel};

verus! {

/// The passive-mode data port that every session announces.
pub const PASV_PORT: u16 = 43210;

/// One client's session: its working directory as root-relative
/// segments, the name given by `USER`, and whether a passive data
/// channel is open.
pub struct Session {
    pub cwd: Vec<Vec<u8>>,
    pub name: Option<Vec<u8>>,
    pub data_open: bool,
}

/// The mathematical shape of a session.
#[verifier::ext_equal]
pub ghost struct SessionModel {
    pub cwd: Seq<Seq<u8>>,
    pub name: Option<Seq<u8>>,
    pub data_open: bool,
}

/// What the state machine asks of its driver after one command.
pub enum Outcome {
    /// Send this reply; the command is complete.
    Done(Reply),
    /// Send the reply, then open the passive listener on the port and
    /// accept one connection; report back through `pasv_done`.
    OpenPassive(Reply, u16),
    /// Canonicalize this root-relative candidate, then ask
    /// `list_verdict` whether to stream the listing.
    ResolveList(Vec<u8>),
    /// Canonicalize this candidate, then let `cwd_done` move the
    /// session; the second field is the argument echoed in the reply.
    ResolveCwd(Vec<u8>, Vec<u8>),
    /// Canonicalize this parent candidate, then ask `mkd_verdict`
    /// whether the named entry may be created inside it.
    ResolveMkd(Vec<u8>, Vec<u8>),
    /// Canonicalize this candidate, then ask `rmd_verdict` whether it
    /// may be removed.
    ResolveRmd(Vec<u8>),
}

/// The mathematical shape of an outcome.
#[verifier::ext_equal]
pub ghost enum OutcomeModel {
    Done(ReplyModel),
    OpenPassive(ReplyModel, u16),
    ResolveList(Seq<u8>),
    ResolveCwd(Seq<u8>, Seq<u8>),
    ResolveMkd(Seq<u8>, Seq<u8>),
    ResolveRmd(Seq<u8>),
}

impl Outcome {
    /// The outcome as a value over byte sequences.
    pub open spec fn model(&self) -> OutcomeModel {
        match self {
            Outcome::Done(rep) => OutcomeModel::Done(rep.model()),
            Outcome::OpenPassive(rep, port) => OutcomeModel::OpenPassive(rep.model(), *port),
            Outcome::ResolveList(rel) => OutcomeModel::ResolveList(rel@),
            Outcome::ResolveCwd(rel, arg) => OutcomeModel::ResolveCwd(rel@, arg@),
            Outcome::ResolveMkd(rel, name) => OutcomeModel::ResolveMkd(rel@, name@),
            Outcome::ResolveRmd(rel) => OutcomeModel::ResolveRmd(rel@),
        }
    }
}

/// A reply model from its parts.
pub open spec fn reply_model(code: ResultCode, text: Seq<u8>) -> ReplyModel {
    ReplyModel { code, text }
}

/// The canonical-path observation as segment sequences.
pub open spec fn canon_view(c: &Option<Vec<Vec<u8>>>) -> Option<Seq<Seq<u8>>> {
    match c {
        Some(v) => Some(segs_view(v)),
        None => None,
    }
}

/// The working directory after stepping up: its parent, or the root
/// when already there.
pub open spec fn cdup_cwd(cwd: Seq<Seq<u8>>) -> Seq<Seq<u8>> {
    if cwd.len() == 0 {
        cwd
    } else {
        cwd.drop_last()
    }
}

/// The message that reports the working directory. The report never
/// fails: the root itself is named by the bare separator.
pub open spec fn pwd_text(cwd: Seq<Seq<u8>>) -> Seq<u8> {
    "\"/".spec_bytes() + join_bytes(cwd) + "\" ".spec_bytes()
}

/// The greeting that `USER` answers with.
pub open spec fn welcome_text(u: Seq<u8>) -> Seq<u8> {
    "Welcome ".spec_bytes() + u + "!".spec_bytes()
}

/// The message that a successful directory change echoes.
pub open spec fn cwd_ok_text(arg: Seq<u8>) -> Seq<u8> {
    "Directory changed to \"".spec_bytes() + arg + "\"".spec_bytes()
}

/// The passive-mode endpoint payload: the loopback address and the two
/// bytes of the port.
pub open spec fn pasv_text() -> Seq<u8> {
    "127,0,0,1,".spec_bytes() + dec_digits((PASV_PORT / 256) as nat) + ",".spec_bytes()
        + dec_digits((PASV_PORT % 256) as nat)
}

/// What one command does to a session: the state afterwards and the
/// outcome handed to the driver.
pub open spec fn step_model(s: SessionModel, cmd: CmdModel) -> (SessionModel, OutcomeModel) {
    match cmd {
        CmdModel::Auth => (
            s,
            OutcomeModel::Done(
                reply_model(ResultCode::CommandNotImplemented, "Not implemented".spec_bytes()),
            ),
        ),
        CmdModel::Syst => (
            s,
            OutcomeModel::Done(reply_model(ResultCode::CommandOkay, "I won't tell".spec_bytes())),
        ),
        CmdModel::NoOp => (
            s,
            OutcomeModel::Done(
                reply_model(ResultCode::CommandOkay, "Doing nothing...".spec_bytes()),
            ),
        ),
        CmdModel::Type => (
            s,
            OutcomeModel::Done(
                reply_model(
                    ResultCode::CommandOkay,
                    "Transfer type changed successfully".spec_bytes(),
                ),
            ),
        ),
        CmdModel::Unknown(_) => (
            s,
            OutcomeModel::Done(
                reply_model(ResultCode::UnknownCommand, "Not implemented".spec_bytes()),
            ),
        ),
        CmdModel::User(u) => if u.len() == 0 {
            (
                s,
                OutcomeModel::Done(
                    reply_model(
                        ResultCode::InvalidParameterOrArgument,
                        "Invalid username".spec_bytes(),
                    ),
                ),
            )
        } else {
            (
                SessionModel { name: Some(u), ..s },
                OutcomeModel::Done(reply_model(ResultCode::UserLoggedIn, welcome_text(u))),
            )
        },
        CmdModel::Pwd => (
            s,
            OutcomeModel::Done(reply_model(ResultCode::PathnameCreated, pwd_text(s.cwd))),
        ),
        CmdModel::Pasv => if s.data_open {
            (
                s,
                OutcomeModel::Done(
                    reply_model(
                        ResultCode::DataConnectionAlreadyOpen,
                        "Already listening...".spec_bytes(),
                    ),
                ),
            )
        } else {
            (
                s,
                OutcomeModel::OpenPassive(
                    reply_model(ResultCode::EnteringPassiveMode, pasv_text()),
                    PASV_PORT,
                ),
            )
        },
        CmdModel::CdUp => (
            SessionModel { cwd: cdup_cwd(s.cwd), ..s },
            OutcomeModel::Done(reply_model(ResultCode::CommandOkay, "Done".spec_bytes())),
        ),
        CmdModel::List(a) => match a {
            None => (s, missing_argument()),
            Some(a) => if !s.data_open {
                (
                    s,
                    OutcomeModel::Done(
                        reply_model(
                            ResultCode::ConnectionClosed,
                            "No opened data connection".spec_bytes(),
                        ),
                    ),
                )
            } else {
                (s, OutcomeModel::ResolveList(complete_rel_model(s.cwd, a)))
            },
        },
        CmdModel::Cwd(a) => match a {
            None => (s, missing_argument()),
            Some(a) => (s, OutcomeModel::ResolveCwd(complete_rel_model(s.cwd, a), a)),
        },
        CmdModel::Mkd(a) => match a {
            None => (s, missing_argument()),
            Some(a) => {
                let pn = mkd_split_model(a);
                if !valid_new_name(pn.1) {
                    (
                        s,
                        OutcomeModel::Done(
                            reply_model(
                                ResultCode::FileNotFound,
                                "Couldn't create folder".spec_bytes(),
                            ),
                        ),
                    )
                } else {
                    (s, OutcomeModel::ResolveMkd(complete_rel_model(s.cwd, pn.0), pn.1))
                }
            },
        },
        CmdModel::Rmd(a) => match a {
            None => (s, missing_argument()),
            Some(a) => (s, OutcomeModel::ResolveRmd(complete_rel_model(s.cwd, a))),
        },
    }
}

/// The parameter-error outcome for a path command sent without one.
pub open spec fn missing_argument() -> OutcomeModel {
    OutcomeModel::Done(
        reply_model(ResultCode::InvalidParameterOrArgument, "Missing argument".spec_bytes()),
    )
}

/// What `cwd_done` does: on acceptance the working directory becomes
/// the part of the canonical path below the root; any failure leaves it
/// untouched and reports not-found.
pub open spec fn cwd_done_model(
    s: SessionModel,
    canon: Option<Seq<Seq<u8>>>,
    root: Seq<Seq<u8>>,
    arg: Seq<u8>,
) -> (SessionModel, ReplyModel) {
    match canon {
        Some(c) => match sandbox_model(c, root) {
            Some(rel) => (
                SessionModel { cwd: rel, ..s },
                reply_model(ResultCode::CommandOkay, cwd_ok_text(arg)),
            ),
            None => (
                s,
                reply_model(ResultCode::FileNotFound, "No such file or directory".spec_bytes()),
            ),
        },
        None => (
            s,
            reply_model(ResultCode::FileNotFound, "No such file or directory".spec_bytes()),
        ),
    }
}

/// Whether a `MKD` request may go ahead: its parent canonicalized under
/// the root and is a directory.
pub open spec fn mkd_allowed(
    canon: Option<Seq<Seq<u8>>>,
    root: Seq<Seq<u8>>,
    parent_is_dir: bool,
) -> bool {
    match canon {
        Some(c) => sandbox_model(c, root) is Some && parent_is_dir,
        None => false,
    }
}

/// Whether a `RMD` request may go ahead: its target canonicalized under
/// the root.
pub open spec fn rmd_allowed(canon: Option<Seq<Seq<u8>>>, root: Seq<Seq<u8>>) -> bool {
    match canon {
        Some(c) => sandbox_model(c, root) is Some,
        None => false,
    }
}

/// The greeting sent when a control connection is accepted.
pub fn greeting() -> (r: Reply)
    ensures
        r.model() == reply_model(
            ResultCode::ServiceReadyForNewUser,
            "Welcome to this FTP server!".spec_bytes(),
        ),
{
    Reply { code: ResultCode::ServiceReadyForNewUser, text: "Welcome to this FTP server!".as_bytes_vec() }
}

impl Session {
    /// The session as a value over byte sequences.
    pub open spec fn model(&self) -> SessionModel {
        SessionModel {
            cwd: segs_view(&self.cwd),
            name: match self.name {
                Some(u) => Some(u@),
                None => None,
            },
            data_open: self.data_open,
        }
    }

    /// A fresh session: at the root, anonymous, no data channel.
    pub fn new() -> (s: Session)
        ensures
            s.model() == (SessionModel {
                cwd: Seq::<Seq<u8>>::empty(),
                name: None,
                data_open: false,
            }),
    {
        let s = Session { cwd: Vec::new(), name: None, data_open: false };
        proof {
            assert(segs_view(&s.cwd) =~= Seq::<Seq<u8>>::empty());
        }
        s
    }

    /// Dispatch one parsed command: update the session and say what the
    /// driver must do next.
    pub fn handle_cmd(&mut self, cmd: FTPCommand) -> (r: Outcome)
        ensures
            ({
                let so = step_model(old(self).model(), cmd.model());
                final(self).model() == so.0 && r.model() == so.1
            }),
    {
        match cmd {
            FTPCommand::Auth => Outcome::Done(
                Reply {
                    code: ResultCode::CommandNotImplemented,
                    text: "Not implemented".as_bytes_vec(),
                },
            ),
            FTPCommand::Syst => Outcome::Done(
                Reply { code: ResultCode::CommandOkay, text: "I won't tell".as_bytes_vec() },
            ),
            FTPCommand::NoOp => Outcome::Done(
                Reply { code: ResultCode::CommandOkay, text: "Doing nothing...".as_bytes_vec() },
            ),
            FTPCommand::Type => Outcome::Done(
                Reply {
                    code: ResultCode::CommandOkay,
                    text: "Transfer type changed successfully".as_bytes_vec(),
                },
            ),
            FTPCommand::Unknown(_) => Outcome::Done(
                Reply { code: ResultCode::UnknownCommand, text: "Not implemented".as_bytes_vec() },
            ),
            FTPCommand::User(u) => {
                if u.len() == 0 {
                    Outcome::Done(
                        Reply {
                            code: ResultCode::InvalidParameterOrArgument,
                            text: "Invalid username".as_bytes_vec(),
                        },
                    )
                } else {
                    let mut t = "Welcome ".as_bytes_vec();
                    push_bytes(&mut t, &u);
                    push_str_bytes(&mut t, "!");
                    proof {
                        assert(t@ =~= welcome_text(u@));
                    }
                    self.name = Some(u);
                    Outcome::Done(Reply { code: ResultCode::UserLoggedIn, text: t })
                }
            },
            FTPCommand::Pwd => {
                let mut t = "\"/".as_bytes_vec();
                let mut joined = join_segments(&self.cwd);
                t.append(&mut joined);
                push_str_bytes(&mut t, "\" ");
                proof {
                    assert(t@ =~= pwd_text(segs_view(&self.cwd)));
                }
                Outcome::Done(Reply { code: ResultCode::PathnameCreated, text: t })
            },
            FTPCommand::Pasv => {
                if self.data_open {
                    Outcome::Done(
                        Reply {
                            code: ResultCode::DataConnectionAlreadyOpen,
                            text: "Already listening...".as_bytes_vec(),
                        },
                    )
                } else {
                    let mut t = "127,0,0,1,".as_bytes_vec();
                    let mut hi = u64_to_dec((PASV_PORT / 256) as u64);
                    t.append(&mut hi);
                    push_str_bytes(&mut t, ",");
                    let mut lo = u64_to_dec((PASV_PORT % 256) as u64);
                    t.append(&mut lo);
                    proof {
                        assert(t@ =~= pasv_text());
                    }
                    Outcome::OpenPassive(
                        Reply { code: ResultCode::EnteringPassiveMode, text: t },
                        PASV_PORT,
                    )
                }
            },
            FTPCommand::CdUp => {
                if self.cwd.len() > 0 {
                    self.cwd.pop();
                }
                proof {
                    assert(segs_view(&self.cwd) =~= cdup_cwd(segs_view(&old(self).cwd)));
                }
                Outcome::Done(Reply { code: ResultCode::CommandOkay, text: "Done".as_bytes_vec() })
            },
            FTPCommand::List(a) => match a {
                None => missing_argument_reply(),
                Some(a) => {
                    if !self.data_open {
                        Outcome::Done(
                            Reply {
                                code: ResultCode::ConnectionClosed,
                                text: "No opened data connection".as_bytes_vec(),
                            },
                        )
                    } else {
                        Outcome::ResolveList(complete_rel(&self.cwd, &a))
                    }
                },
            },
            FTPCommand::Cwd(a) => match a {
                None => missing_argument_reply(),
                Some(a) => {
                    let rel = complete_rel(&self.cwd, &a);
                    Outcome::ResolveCwd(rel, a)
                },
            },
            FTPCommand::Mkd(a) => match a {
                None => missing_argument_reply(),
                Some(a) => {
                    let (parent, name) = mkd_split(&a);
                    if !is_valid_new_name(&name) {
                        Outcome::Done(
                            Reply {
                                code: ResultCode::FileNotFound,
                                text: "Couldn't create folder".as_bytes_vec(),
                            },
                        )
                    } else {
                        Outcome::ResolveMkd(complete_rel(&self.cwd, &parent), name)
                    }
                },
            },
            FTPCommand::Rmd(a) => match a {
                None => missing_argument_reply(),
                Some(a) => Outcome::ResolveRmd(complete_rel(&self.cwd, &a)),
            },
        }
    }

    /// Record how opening the passive data channel went: on success the
    /// channel is open and nothing more is said; on failure the channel
    /// stays closed and the service-not-available reply goes out.
    pub fn pasv_done(&mut self, accepted: bool) -> (r: Option<Reply>)
        ensures
            final(self).cwd == old(self).cwd,
            final(self).name == old(self).name,
            final(self).data_open == accepted,
            accepted ==> r is None,
            !accepted ==> (r matches Some(rep) && rep.model() == reply_model(
                ResultCode::ServiceNotAvailable,
                "issues happen...".spec_bytes(),
            )),
    {
        if accepted {
            self.data_open = true;
            None
        } else {
            self.data_open = false;
            Some(
                Reply {
                    code: ResultCode::ServiceNotAvailable,
                    text: "issues happen...".as_bytes_vec(),
                },
            )
        }
    }

    /// Finish a directory change once the candidate was canonicalized.
    pub fn cwd_done(
        &mut self,
        canon: &Option<Vec<Vec<u8>>>,
        root: &Vec<Vec<u8>>,
        dir_arg: &Vec<u8>,
    ) -> (r: Reply)
        ensures
            ({
                let so = cwd_done_model(
                    old(self).model(),
                    canon_view(canon),
                    segs_view(root),
                    dir_arg@,
                );
                final(self).model() == so.0 && r.model() == so.1
            }),
    {
        match complete_path(canon, root) {
            Ok(rel) => {
                self.cwd = rel;
                let mut t = "Directory changed to \"".as_bytes_vec();
                push_bytes(&mut t, dir_arg);
                push_str_bytes(&mut t, "\"");
                proof {
                    assert(t@ =~= cwd_ok_text(dir_arg@));
                }
                Reply { code: ResultCode::CommandOkay, text: t }
            },
            Err(_) => Reply {
                code: ResultCode::FileNotFound,
                text: "No such file or directory".as_bytes_vec(),
            },
        }
    }

    /// Close the data channel after a listing and say goodbye on the
    /// control channel, if a channel was open at all.
    pub fn list_finish(&mut self) -> (r: Option<Reply>)
        ensures
            final(self).cwd == old(self).cwd,
            final(self).name == old(self).name,
            !final(self).data_open,
            old(self).data_open ==> (r matches Some(rep) && rep.model() == reply_model(
                ResultCode::ClosingDataConnection,
                "Transfer done".spec_bytes(),
            )),
            !old(self).data_open ==> r is None,
    {
        if self.data_open {
            self.data_open = false;
            Some(
                Reply {
                    code: ResultCode::ClosingDataConnection,
                    text: "Transfer done".as_bytes_vec(),
                },
            )
        } else {
            None
        }
    }
}

/// The parameter-error outcome for a path command sent without an
/// argument.
fn missing_argument_reply() -> (r: Outcome)
    ensures
        r.model() == OutcomeModel::Done(
            reply_model(ResultCode::InvalidParameterOrArgument, "Missing argument".spec_bytes()),
        ),
{
    Outcome::Done(
        Reply {
            code: ResultCode::InvalidParameterOrArgument,
            text: "Missing argument".as_bytes_vec(),
        },
    )
}

/// Decide whether a listing may start, once the candidate was
/// canonicalized: acceptance starts the transfer, any resolution
/// failure is reported as a parameter error.
pub fn list_verdict(canon: &Option<Vec<Vec<u8>>>, root: &Vec<Vec<u8>>) -> (r: Result<Reply, Reply>)
    ensures
        ({
            let m = canon_view(canon);
            match r {
                Ok(k) => (match m {
                    Some(c) => sandbox_model(c, segs_view(root)) is Some,
                    None => false,
                }) && k.model() == reply_model(
                    ResultCode::DataConnectionAlreadyOpen,
                    "Starting to list directory...".spec_bytes(),
                ),
                Err(e) => (match m {
                    Some(c) => sandbox_model(c, segs_view(root)) is None,
                    None => true,
                }) && e.model() == reply_model(
                    ResultCode::InvalidParameterOrArgument,
                    "No such file or directory...".spec_bytes(),
                ),
            }
        }),
{
    match complete_path(canon, root) {
        Ok(_) => Ok(
            Reply {
                code: ResultCode::DataConnectionAlreadyOpen,
                text: "Starting to list directory...".as_bytes_vec(),
            },
        ),
        Err(_) => Err(
            Reply {
                code: ResultCode::InvalidParameterOrArgument,
                text: "No such file or directory...".as_bytes_vec(),
            },
        ),
    }
}

/// Decide whether a creation may go ahead, once the parent candidate
/// was canonicalized and examined.
pub fn mkd_verdict(canon: &Option<Vec<Vec<u8>>>, root: &Vec<Vec<u8>>, parent_is_dir: bool) -> (r:
    Result<(), Reply>)
    ensures
        r is Ok <==> mkd_allowed(canon_view(canon), segs_view(root), parent_is_dir),
        r matches Err(e) ==> e.model() == reply_model(
            ResultCode::FileNotFound,
            "Couldn't create folder".spec_bytes(),
        ),
{
    match complete_path(canon, root) {
        Ok(_) => {
            if parent_is_dir {
                Ok(())
            } else {
                Err(
                    Reply {
                        code: ResultCode::FileNotFound,
                        text: "Couldn't create folder".as_bytes_vec(),
                    },
                )
            }
        },
        Err(_) => Err(
            Reply {
                code: ResultCode::FileNotFound,
                text: "Couldn't create folder".as_bytes_vec(),
            },
        ),
    }
}

/// The reply after the driver tried to create the directory.
pub fn mkd_reply(created: bool) -> (r: Reply)
    ensures
        created ==> r.model() == reply_model(
            ResultCode::PathnameCreated,
            "Folder successfully created!".spec_bytes(),
        ),
        !created ==> r.model() == reply_model(
            ResultCode::FileNotFound,
            "Couldn't create folder".spec_bytes(),
        ),
{
    if created {
        Reply {
            code: ResultCode::PathnameCreated,
            text: "Folder successfully created!".as_bytes_vec(),
        }
    } else {
        Reply { code: ResultCode::FileNotFound, text: "Couldn't create folder".as_bytes_vec() }
    }
}

/// Decide whether a removal may go ahead, once the candidate was
/// canonicalized.
pub fn rmd_verdict(canon: &Option<Vec<Vec<u8>>>, root: &Vec<Vec<u8>>) -> (r: Result<(), Reply>)
    ensures
        r is Ok <==> rmd_allowed(canon_view(canon), segs_view(root)),
        r matches Err(e) ==> e.model() == reply_model(
            ResultCode::FileNotFound,
            "Couldn't remove folder!".spec_bytes(),
        ),
{
    match complete_path(canon, root) {
        Ok(_) => Ok(()),
        Err(_) => Err(
            Reply {
                code: ResultCode::FileNotFound,
                text: "Couldn't remove folder!".as_bytes_vec(),
            },
        ),
    }
}

/// The reply after the driver tried to remove the directory.
pub fn rmd_reply(removed: bool) -> (r: Reply)
    ensures
        removed ==> r.model() == reply_model(
            ResultCode::RequestedFileActionOkay,
            "Folder successfully removed!".spec_bytes(),
        ),
        !removed ==> r.model() == reply_model(
            ResultCode::FileNotFound,
            "Couldn't remove folder!".spec_bytes(),
        ),
{
    if removed {
        Reply {
            code: ResultCode::RequestedFileActionOkay,
            text: "Folder successfully removed!".as_bytes_vec(),
        }
    } else {
        Reply { code: ResultCode::FileNotFound, text: "Couldn't remove folder!".as_bytes_vec() }
    }
}

/// Law: a listing without an open data channel is refused with the
/// connection-closed reply, and the session — in particular the absence
/// of a data channel — is left exactly as it was.
pub proof fn lemma_list_needs_data_channel(s: SessionModel, a: Seq<u8>)
    requires
        !s.data_open,
    ensures
        step_model(s, CmdModel::List(Some(a))).0 == s,
        step_model(s, CmdModel::List(Some(a))).1 == OutcomeModel::Done(
            reply_model(ResultCode::ConnectionClosed, "No opened data connection".spec_bytes()),
        ),
{
}

/// Law: an unrecognized verb never changes the session and is answered
/// with the unknown-command reply.
pub proof fn lemma_unknown_is_rejected(s: SessionModel, v: Seq<u8>)
    ensures
        step_model(s, CmdModel::Unknown(v)).0 == s,
        step_model(s, CmdModel::Unknown(v)).1 == OutcomeModel::Done(
            reply_model(ResultCode::UnknownCommand, "Not implemented".spec_bytes()),
        ),
{
}

/// Law (round trip): when a directory change resolves to a child `d` of
/// the current working directory, the next `PWD` reports that child;
/// `CDUP` afterwards restores the original working directory, and `PWD`
/// then reports the original directory again.
pub proof fn lemma_cwd_pwd_round_trip(
    s: SessionModel,
    root: Seq<Seq<u8>>,
    d: Seq<u8>,
    arg: Seq<u8>,
)
    ensures
        ({
            let s1 = cwd_done_model(s, Some(root + s.cwd.push(d)), root, arg).0;
            let o1 = step_model(s1, CmdModel::Pwd).1;
            let s2 = step_model(s1, CmdModel::CdUp).0;
            let o2 = step_model(s2, CmdModel::Pwd).1;
            &&& s1.cwd == s.cwd.push(d)
            &&& o1 == OutcomeModel::Done(
                reply_model(ResultCode::PathnameCreated, pwd_text(s.cwd.push(d))),
            )
            &&& s2.cwd == s.cwd
            &&& o2 == OutcomeModel::Done(reply_model(ResultCode::PathnameCreated, pwd_text(s.cwd)))
        }),
{
    let c = root + s.cwd.push(d);
    crate::paths::lemma_resolve_idempotent(s.cwd, root, s.cwd.push(d));
    let s1 = cwd_done_model(s, Some(c), root, arg).0;
    assert(s1.cwd == s.cwd.push(d));
    assert(cdup_cwd(s.cwd.push(d)) =~= s.cwd);
    let s2 = step_model(s1, CmdModel::CdUp).0;
    assert(s2 =~= SessionModel { cwd: s.cwd, ..s1 });
}

/// Law: a freshly created directory can be entered, and a removed one
/// cannot. When the parent of the new name canonicalizes under the
/// root to a directory, creation is allowed; when the new path then
/// canonicalizes under the root, the directory change succeeds and the
/// session moves into it; and when the path no longer canonicalizes
/// (after removal), the change reports not-found and the working
/// directory stays as it was.
pub proof fn lemma_mkd_cwd_rmd(
    s: SessionModel,
    root: Seq<Seq<u8>>,
    parent: Seq<Seq<u8>>,
    name: Seq<u8>,
    arg: Seq<u8>,
)
    ensures
        mkd_allowed(Some(root + parent), root, true),
        rmd_allowed(Some(root + parent.push(name)), root),
        ({
            let so = cwd_done_model(s, Some(root + parent.push(name)), root, arg);
            so.0.cwd == parent.push(name) && so.1.code == ResultCode::CommandOkay
        }),
        ({
            let so = cwd_done_model(s, None, root, arg);
            so.0 == s && so.1.code == ResultCode::FileNotFound
        }),
{
    crate::paths::lemma_resolve_idempotent(s.cwd, root, parent);
    crate::paths::lemma_resolve_idempotent(s.cwd, root, parent.push(name));
}

} // verus!
