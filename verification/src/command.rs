//! The command parser: one stripped control-channel line in, one typed
//! command out. Parsing never fails; an unrecognized verb becomes
//! `Unknown`, and a missing argument surfaces later as a parameter error.

use vstd::prelude::*;
use vstd::string::StringSliceAdditionalSpecFns;
use vstd::string::StrSliceExecFns;

verus! {

/// A parsed control-channel command. Path-taking verbs carry their raw
/// argument bytes when the client sent one.
pub enum FTPCommand {
    Auth,
    Syst,
    NoOp,
    Pwd,
    Type,
    Pasv,
    CdUp,
    List(Option<Vec<u8>>),
    Cwd(Option<Vec<u8>>),
    Mkd(Option<Vec<u8>>),
    Rmd(Option<Vec<u8>>),
    User(Vec<u8>),
    Unknown(Vec<u8>),
}

/// The mathematical shape of a command: the same variants over byte
/// sequences instead of vectors.
pub ghost enum CmdModel {
    Auth,
    Syst,
    NoOp,
    Pwd,
    Type,
    Pasv,
    CdUp,
    List(Option<Seq<u8>>),
    Cwd(Option<Seq<u8>>),
    Mkd(Option<Seq<u8>>),
    Rmd(Option<Seq<u8>>),
    User(Seq<u8>),
    Unknown(Seq<u8>),
}

pub open spec fn opt_bytes_model(a: Option<Vec<u8>>) -> Option<Seq<u8>> {
    match a {
        Some(v) => Some(v@),
        None => None,
    }
}

impl FTPCommand {
    /// The command as a value over byte sequences.
    pub open spec fn model(&self) -> CmdModel {
        match self {
            FTPCommand::Auth => CmdModel::Auth,
            FTPCommand::Syst => CmdModel::Syst,
            FTPCommand::NoOp => CmdModel::NoOp,
            FTPCommand::Pwd => CmdModel::Pwd,
            FTPCommand::Type => CmdModel::Type,
            FTPCommand::Pasv => CmdModel::Pasv,
            FTPCommand::CdUp => CmdModel::CdUp,
            FTPCommand::List(a) => CmdModel::List(opt_bytes_model(*a)),
            FTPCommand::Cwd(a) => CmdModel::Cwd(opt_bytes_model(*a)),
            FTPCommand::Mkd(a) => CmdModel::Mkd(opt_bytes_model(*a)),
            FTPCommand::Rmd(a) => CmdModel::Rmd(opt_bytes_model(*a)),
            FTPCommand::User(u) => CmdModel::User(u@),
            FTPCommand::Unknown(v) => CmdModel::Unknown(v@),
        }
    }
}

/// The protocol verb that a command stands for.
pub open spec fn verb_name_spec(c: CmdModel) -> Seq<char> {
    match c {
        CmdModel::CdUp => "CDUP"@,
        CmdModel::List(_) => "LIST"@,
        CmdModel::Mkd(_) => "MKD"@,
        CmdModel::Rmd(_) => "RMD"@,
        CmdModel::Pasv => "PASV"@,
        CmdModel::Type => "TYPE"@,
        CmdModel::Auth => "AUTH"@,
        CmdModel::Pwd => "PWD"@,
        CmdModel::NoOp => "NOOP"@,
        CmdModel::Cwd(_) => "CWD"@,
        CmdModel::Syst => "SYST"@,
        CmdModel::User(_) => "USER"@,
        CmdModel::Unknown(_) => "UNKN"@,
    }
}

impl FTPCommand {
    /// The protocol verb this command stands for.
    pub fn verb_name(&self) -> (r: &'static str)
        ensures
            r@ == verb_name_spec(self.model()),
    {
        match self {
            FTPCommand::CdUp => "CDUP",
            FTPCommand::List(_) => "LIST",
            FTPCommand::Mkd(_) => "MKD",
            FTPCommand::Rmd(_) => "RMD",
            FTPCommand::Pasv => "PASV",
            FTPCommand::Type => "TYPE",
            FTPCommand::Auth => "AUTH",
            FTPCommand::Pwd => "PWD",
            FTPCommand::NoOp => "NOOP",
            FTPCommand::Cwd(_) => "CWD",
            FTPCommand::Syst => "SYST",
            FTPCommand::User(_) => "USER",
            FTPCommand::Unknown(_) => "UNKN",
        }
    }
}

/// ASCII uppercase of one byte: letters `a`..`z` are shifted, everything
/// else passes through.
pub open spec fn upper(b: u8) -> u8 {
    if 'a' as u8 <= b && b <= 'z' as u8 {
        (b - 32) as u8
    } else {
        b
    }
}

/// ASCII uppercase of a byte sequence.
pub open spec fn upper_seq(s: Seq<u8>) -> Seq<u8> {
    Seq::new(s.len(), |i: int| upper(s[i]))
}

/// The position of the first space at or after `i`, or the length when
/// there is none.
pub open spec fn first_space_from(s: Seq<u8>, i: int) -> int
    decreases s.len() - i,
{
    if i < 0 || i >= s.len() {
        s.len() as int
    } else if s[i] == ' ' as u8 {
        i
    } else {
        first_space_from(s, i + 1)
    }
}

/// The position of the first space, or the length when there is none.
pub open spec fn first_space(s: Seq<u8>) -> int {
    first_space_from(s, 0)
}

/// What parsing a stripped line yields: the verb (everything before the
/// first space) is uppercased and matched against the verb table; the
/// remainder, when present, is the untouched argument.
pub open spec fn parse_model(line: Seq<u8>) -> CmdModel {
    let i = first_space(line);
    let v = upper_seq(line.take(i));
    let a = if i < line.len() {
        Some(line.skip(i + 1))
    } else {
        None::<Seq<u8>>
    };
    if v == "RMD".spec_bytes() {
        CmdModel::Rmd(a)
    } else if v == "MKD".spec_bytes() {
        CmdModel::Mkd(a)
    } else if v == "CDUP".spec_bytes() {
        CmdModel::CdUp
    } else if v == "TYPE".spec_bytes() {
        CmdModel::Type
    } else if v == "PWD".spec_bytes() {
        CmdModel::Pwd
    } else if v == "NOOP".spec_bytes() {
        CmdModel::NoOp
    } else if v == "AUTH".spec_bytes() {
        CmdModel::Auth
    } else if v == "SYST".spec_bytes() {
        CmdModel::Syst
    } else if v == "PASV".spec_bytes() {
        CmdModel::Pasv
    } else if v == "LIST".spec_bytes() {
        CmdModel::List(a)
    } else if v == "USER".spec_bytes() {
        CmdModel::User(
            match a {
                Some(x) => x,
                None => Seq::empty(),
            },
        )
    } else if v == "CWD".spec_bytes() {
        CmdModel::Cwd(a)
    } else {
        CmdModel::Unknown(v)
    }
}

/// A sequence with no space from position `i` on has its first space
/// only at its end.
proof fn lemma_first_space_none(s: Seq<u8>, i: int)
    requires
        0 <= i <= s.len(),
        forall|j: int| i <= j < s.len() ==> s[j] != ' ' as u8,
    ensures
        first_space_from(s, i) == s.len(),
    decreases s.len() - i,
{
    if i < s.len() {
        lemma_first_space_none(s, i + 1);
    }
}

/// Law: the parser does not care about the letter case of a verb. Two
/// space-free lines whose bytes agree up to ASCII case parse to the
/// same command; in particular, an unrecognized verb in any case
/// becomes the same uppercased `Unknown`.
pub proof fn lemma_parse_case_insensitive(s: Seq<u8>, t: Seq<u8>)
    requires
        s.len() == t.len(),
        forall|i: int| 0 <= i < s.len() ==> upper(s[i]) == upper(t[i]),
        forall|i: int| 0 <= i < s.len() ==> s[i] != ' ' as u8,
    ensures
        parse_model(s) == parse_model(t),
{
    assert forall|i: int| 0 <= i < t.len() implies t[i] != ' ' as u8 by {
        assert(upper(s[i]) == upper(t[i]));
    }
    lemma_first_space_none(s, 0);
    lemma_first_space_none(t, 0);
    assert(upper_seq(s.take(s.len() as int)) =~= upper_seq(t.take(t.len() as int)));
}

/// Shift every ASCII lowercase letter of `data` to uppercase, in place.
pub fn to_uppercase(data: &mut Vec<u8>)
    ensures
        final(data)@ == upper_seq(old(data)@),
{
    let mut i: usize = 0;
    while i < data.len()
        invariant
            i <= data@.len(),
            data@.len() == old(data)@.len(),
            forall|j: int| i <= j < data@.len() ==> data@[j] == old(data)@[j],
            forall|j: int| 0 <= j < i ==> data@[j] == upper(old(data)@[j]),
        decreases data@.len() - i,
    {
        let b = data[i];
        if 'a' as u8 <= b && b <= 'z' as u8 {
            data.set(i, b - 32);
        }
        i = i + 1;
    }
    proof {
        assert(data@ =~= upper_seq(old(data)@));
    }
}

/// Whether `v` holds exactly the bytes of the verb `w`.
fn verb_is(v: &Vec<u8>, w: &str) -> (r: bool)
    ensures
        r == (v@ == w.spec_bytes()),
{
    let wb = w.as_bytes_vec();
    if v.len() != wb.len() {
        proof {
            assert(v@ != w.spec_bytes());
        }
        return false;
    }
    let mut i: usize = 0;
    while i < v.len()
        invariant
            i <= v@.len(),
            v@.len() == wb@.len(),
            wb@ == w.spec_bytes(),
            forall|j: int| 0 <= j < i ==> v@[j] == wb@[j],
        decreases v@.len() - i,
    {
        if v[i] != wb[i] {
            proof {
                assert(v@ != w.spec_bytes());
            }
            return false;
        }
        i = i + 1;
    }
    proof {
        assert(v@ =~= w.spec_bytes());
    }
    true
}

impl FTPCommand {
    /// Parse one stripped line of the control channel. This never fails:
    /// whatever the bytes, some command comes back.
    pub fn new(input: Vec<u8>) -> (r: FTPCommand)
        ensures
            r.model() == parse_model(input@),
    {
        let n = input.len();
        let mut i: usize = 0;
        while i < n && input[i] != ' ' as u8
            invariant
                i <= n,
                n == input@.len(),
                first_space(input@) == first_space_from(input@, i as int),
            decreases n - i,
        {
            i = i + 1;
        }
        proof {
            assert(first_space(input@) == i);
        }

        let mut verb: Vec<u8> = Vec::new();
        let mut j: usize = 0;
        while j < i
            invariant
                j <= i <= n,
                n == input@.len(),
                verb@ == input@.take(j as int),
            decreases i - j,
        {
            verb.push(input[j]);
            proof {
                assert(verb@ =~= input@.take(j + 1));
            }
            j = j + 1;
        }
        to_uppercase(&mut verb);

        let arg: Option<Vec<u8>> = if i < n {
            let mut a: Vec<u8> = Vec::new();
            let mut k: usize = i + 1;
            while k < n
                invariant
                    i + 1 <= k <= n,
                    n == input@.len(),
                    a@ == input@.subrange(i + 1, k as int),
                decreases n - k,
            {
                a.push(input[k]);
                proof {
                    assert(a@ =~= input@.subrange(i + 1, k + 1));
                }
                k = k + 1;
            }
            proof {
                assert(a@ == input@.skip(i + 1));
            }
            Some(a)
        } else {
            None
        };

        if verb_is(&verb, "RMD") {
            FTPCommand::Rmd(arg)
        } else if verb_is(&verb, "MKD") {
            FTPCommand::Mkd(arg)
        } else if verb_is(&verb, "CDUP") {
            FTPCommand::CdUp
        } else if verb_is(&verb, "TYPE") {
            FTPCommand::Type
        } else if verb_is(&verb, "PWD") {
            FTPCommand::Pwd
        } else if verb_is(&verb, "NOOP") {
            FTPCommand::NoOp
        } else if verb_is(&verb, "AUTH") {
            FTPCommand::Auth
        } else if verb_is(&verb, "SYST") {
            FTPCommand::Syst
        } else if verb_is(&verb, "PASV") {
            FTPCommand::Pasv
        } else if verb_is(&verb, "LIST") {
            FTPCommand::List(arg)
        } else if verb_is(&verb, "USER") {
            match arg {
                Some(a) => FTPCommand::User(a),
                None => FTPCommand::User(Vec::new()),
            }
        } else if verb_is(&verb, "CWD") {
            FTPCommand::Cwd(arg)
        } else {
            FTPCommand::Unknown(verb)
        }
    }
}

} // verus!
