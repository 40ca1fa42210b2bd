//! The pipe-delimited text protocol: incoming commands.
use crate::text::{chars_of, string_from, parse_u64, parse_unsigned, parse_usize, push_str, same_str};
use vstd::prelude::*;

verus! {

/// A kind of incoming command
#[derive(Clone, Copy, Debug, PartialEq, Eq, Structural)]
pub enum CommandKind {
    /// init
    Init,
    /// chat
    Chat,
    /// steps
    Steps,
    /// update
    Update,
    /// webrtc
    WebRTC,
}

/// Error when parsing a command
#[derive(Clone, Debug, PartialEq, Eq)]
pub enum ParseCommandError {
    /// The command expected an argument
    MissingArg(CommandKind),
    /// The command is not known
    UnknownCommand(String),
}

/// An incoming command
#[derive(Debug, Clone)]
pub enum Command {
    /// A chat message
    Chat(String),
    /// Steps for the document, against a declared version
    Steps(usize, String),
    /// New user settings, as JSON
    Update(String),
    /// Initialize with an intended name
    Init(Option<String>),
    /// Close the connection
    Close,
    /// A WebRTC signal for a client
    WebRTC(u64, String),
}

/// The verb that names each kind of command.
pub open spec fn verb_of(k: CommandKind) -> Seq<char> {
    match k {
        CommandKind::Init => "init"@,
        CommandKind::Chat => "chat"@,
        CommandKind::Steps => "steps"@,
        CommandKind::Update => "update"@,
        CommandKind::WebRTC => "webrtc"@,
    }
}

/// The kind of command that the verb `v` names, if any.
pub open spec fn kind_of_verb(v: Seq<char>) -> Option<CommandKind> {
    if v == "init"@ {
        Some(CommandKind::Init)
    } else if v == "chat"@ {
        Some(CommandKind::Chat)
    } else if v == "steps"@ {
        Some(CommandKind::Steps)
    } else if v == "update"@ {
        Some(CommandKind::Update)
    } else if v == "webrtc"@ {
        Some(CommandKind::WebRTC)
    } else {
        None
    }
}

/// `s` split once at its first `|`: what stands before it, and what stands after
/// it if there is one.
pub open spec fn split_bar(s: Seq<char>) -> (Seq<char>, Option<Seq<char>>)
    decreases s.len(),
{
    if s.len() == 0 {
        (s, None)
    } else if s[0] == '|' {
        (Seq::empty(), Some(s.drop_first()))
    } else {
        let rest = split_bar(s.drop_first());
        (seq![s[0]] + rest.0, rest.1)
    }
}

/// The view of an optional string.
pub open spec fn opt_view(o: Option<String>) -> Option<Seq<char>> {
    match o {
        Some(s) => Some(s@),
        None => None,
    }
}

/// What a command needs after its verb, given the argument `arg`: `r` is the result
/// of parsing a command of kind `k`.
pub open spec fn parses_arg(k: CommandKind, arg: Option<Seq<char>>, r: Result<Command, ParseCommandError>) -> bool {
    match k {
        CommandKind::Init => r matches Ok(Command::Init(n)) && opt_view(n) == arg,
        CommandKind::Chat => match arg {
            None => r == Err::<Command, ParseCommandError>(ParseCommandError::MissingArg(k)),
            Some(a) => r matches Ok(Command::Chat(t)) && t@ == a,
        },
        CommandKind::Update => match arg {
            None => r == Err::<Command, ParseCommandError>(ParseCommandError::MissingArg(k)),
            Some(a) => r matches Ok(Command::Update(t)) && t@ == a,
        },
        CommandKind::WebRTC => match arg {
            None => r == Err::<Command, ParseCommandError>(ParseCommandError::MissingArg(k)),
            Some(a) => {
                let (num, payload) = split_bar(a);
                match (payload, parse_unsigned(num, u64::MAX as nat)) {
                    (Some(p), Some(v)) => r matches Ok(Command::WebRTC(n, t)) && n == v && t@ == p,
                    _ => r == Err::<Command, ParseCommandError>(ParseCommandError::MissingArg(k)),
                }
            },
        },
        CommandKind::Steps => match arg {
            None => r == Err::<Command, ParseCommandError>(ParseCommandError::MissingArg(k)),
            Some(a) => {
                let (num, payload) = split_bar(a);
                match (payload, parse_unsigned(num, usize::MAX as nat)) {
                    (Some(p), Some(v)) => r matches Ok(Command::Steps(n, t)) && n == v && t@ == p,
                    _ => r == Err::<Command, ParseCommandError>(ParseCommandError::MissingArg(k)),
                }
            },
        },
    }
}

/// `r` is the result of parsing the text frame `s` as a command.
pub open spec fn parses_to(s: Seq<char>, r: Result<Command, ParseCommandError>) -> bool {
    let (verb, arg) = split_bar(s);
    match kind_of_verb(verb) {
        None => r matches Err(ParseCommandError::UnknownCommand(v)) && v@ == verb,
        Some(k) => parses_arg(k, arg, r),
    }
}

proof fn lemma_split_bar_skip(s: Seq<char>, i: int)
    requires
        0 <= i <= s.len(),
        forall|k: int| 0 <= k < i ==> s[k] != '|',
    ensures
        split_bar(s).0 == s.take(i) + split_bar(s.skip(i)).0,
        split_bar(s).1 == split_bar(s.skip(i)).1,
    decreases i,
{
    if i > 0 {
        let t = s.drop_first();
        assert forall|k: int| 0 <= k < i - 1 implies t[k] != '|' by {
            assert(t[k] == s[k + 1]);
        }
        lemma_split_bar_skip(t, i - 1);
        assert(t.skip(i - 1) =~= s.skip(i));
        assert(s.take(i) =~= seq![s[0]] + t.take(i - 1));
    } else {
        assert(s.skip(0) =~= s);
    }
}

/// Splits `input` once at its first `|`.
pub fn split_arg(input: &str) -> (r: (String, Option<String>))
    ensures
        r.0@ == split_bar(input@).0,
        opt_view(r.1) == split_bar(input@).1,
{
    let cs = chars_of(input);
    let mut i: usize = 0;
    while i < cs.len()
        invariant
            cs@ == input@,
            i <= cs.len(),
            forall|k: int| 0 <= k < i ==> cs@[k] != '|',
        decreases cs.len() - i,
    {
        if cs[i] == '|' {
            proof {
                lemma_split_bar_skip(input@, i as int);
                assert(input@.skip(i as int).drop_first() =~= input@.subrange(i + 1, input@.len() as int));
                assert(split_bar(input@.skip(i as int)).0 =~= Seq::empty());
            }
            let head = string_from(&cs, 0, i);
            let rest = string_from(&cs, i + 1, cs.len());
            assert(head@ =~= input@.take(i as int) + Seq::<char>::empty());
            return (head, Some(rest));
        }
        i = i + 1;
    }
    proof {
        lemma_split_bar_skip(input@, i as int);
        assert(input@.skip(i as int) =~= Seq::<char>::empty());
        assert(input@.take(i as int) =~= input@);
    }
    let head = string_from(&cs, 0, cs.len());
    assert(head@ =~= input@);
    (head, None)
}

impl CommandKind {
    /// The verb of this kind of command.
    pub fn verb(&self) -> (r: &'static str)
        ensures
            r@ == verb_of(*self),
    {
        match self {
            CommandKind::Init => "init",
            CommandKind::Chat => "chat",
            CommandKind::Steps => "steps",
            CommandKind::Update => "update",
            CommandKind::WebRTC => "webrtc",
        }
    }

    /// The kind of command that the verb `s` names.
    pub fn from_verb(s: &str) -> (r: Result<CommandKind, ParseCommandError>)
        ensures
            match kind_of_verb(s@) {
                Some(k) => r == Ok::<CommandKind, ParseCommandError>(k),
                None => r matches Err(ParseCommandError::UnknownCommand(v)) && v@ == s@,
            },
    {
        if same_str(s, "init") {
            Ok(CommandKind::Init)
        } else if same_str(s, "chat") {
            Ok(CommandKind::Chat)
        } else if same_str(s, "steps") {
            Ok(CommandKind::Steps)
        } else if same_str(s, "update") {
            Ok(CommandKind::Update)
        } else if same_str(s, "webrtc") {
            Ok(CommandKind::WebRTC)
        } else {
            Err(ParseCommandError::UnknownCommand(s.to_owned()))
        }
    }
}

impl ParseCommandError {
    /// The diagnostic that a client is sent for this error.
    pub open spec fn spec_message(&self) -> Seq<char> {
        match self {
            ParseCommandError::MissingArg(k) => "The command expected an argument (e.g. `"@ + verb_of(
                *k,
            ) + "|foo`)"@,
            ParseCommandError::UnknownCommand(v) => "The command `"@ + v@ + "` is not known"@,
        }
    }

    /// The diagnostic that a client is sent for this error.
    pub fn message(&self) -> (r: String)
        ensures
            r@ == self.spec_message(),
    {
        let mut out = String::new();
        match self {
            ParseCommandError::MissingArg(k) => {
                push_str(&mut out, "The command expected an argument (e.g. `");
                push_str(&mut out, k.verb());
                push_str(&mut out, "|foo`)");
            },
            ParseCommandError::UnknownCommand(v) => {
                push_str(&mut out, "The command `");
                push_str(&mut out, v.as_str());
                push_str(&mut out, "` is not known");
            },
        }
        out
    }
}

fn parse_number_arg(k: CommandKind, a: String) -> (r: Result<Command, ParseCommandError>)
    requires
        k == CommandKind::WebRTC || k == CommandKind::Steps,
    ensures
        parses_arg(k, Some(a@), r),
{
    let (num, payload) = split_arg(a.as_str());
    match payload {
        None => Err(ParseCommandError::MissingArg(k)),
        Some(p) => {
            if k == CommandKind::WebRTC {
                match parse_u64(num.as_str()) {
                    Some(v) => Ok(Command::WebRTC(v, p)),
                    None => Err(ParseCommandError::MissingArg(k)),
                }
            } else {
                match parse_usize(num.as_str()) {
                    Some(v) => Ok(Command::Steps(v, p)),
                    None => Err(ParseCommandError::MissingArg(k)),
                }
            }
        },
    }
}

impl Command {
    /// Parses one text frame as a command.
    pub fn parse(input: &str) -> (r: Result<Command, ParseCommandError>)
        ensures
            parses_to(input@, r),
    {
        let (cmd, arg) = split_arg(input);
        let kind = match CommandKind::from_verb(cmd.as_str()) {
            Ok(k) => k,
            Err(e) => {
                return Err(e);
            },
        };
        match kind {
            CommandKind::Init => Ok(Command::Init(arg)),
            CommandKind::Chat => match arg {
                Some(t) => Ok(Command::Chat(t)),
                None => Err(ParseCommandError::MissingArg(kind)),
            },
            CommandKind::Update => match arg {
                Some(t) => Ok(Command::Update(t)),
                None => Err(ParseCommandError::MissingArg(kind)),
            },
            CommandKind::WebRTC | CommandKind::Steps => match arg {
                Some(t) => parse_number_arg(kind, t),
                None => Err(ParseCommandError::MissingArg(kind)),
            },
        }
    }
}

impl std::str::FromStr for CommandKind {
    type Err = ParseCommandError;

    fn from_str(s: &str) -> Result<CommandKind, ParseCommandError> {
        CommandKind::from_verb(s)
    }
}

impl std::str::FromStr for Command {
    type Err = ParseCommandError;

    fn from_str(s: &str) -> Result<Command, ParseCommandError> {
        Command::parse(s)
    }
}

} // verus!
