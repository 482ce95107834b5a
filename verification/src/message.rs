//! The message: optional tags, optional source, a command and an optional
//! parameter list. Parsing one CRLF-terminated wire line yields a message;
//! encoding a message yields `<command>[ <params>]\r\n` — tags and source
//! are never emitted by this client.
use vstd::prelude::*;

use crate::chars::{find_crlf, find_crlf_exec, lemma_find_crlf, str_to_chars};
use crate::command::{spec_cmd_text, Command, CommandV};
use crate::param::{spec_join_params, Param, Params};
use crate::parser;
use crate::parser::{
    spec_command_stage, spec_params, spec_source, spec_tags, tags_view, Tag, TagV,
};
use crate::source::{Source, SourceV};

verus! {

/// A line that could not be parsed; it carries the offending raw text.
#[derive(Debug, PartialEq)]
pub struct ParseError {
    text: String,
}

impl View for ParseError {
    type V = Seq<char>;

    closed spec fn view(&self) -> Seq<char> {
        self.text@
    }
}

impl ParseError {
    /// The raw text that failed to parse.
    pub fn text(&self) -> (r: &str)
        ensures
            r@ == self@,
    {
        self.text.as_str()
    }
}

/// Mathematical model of [`Message`].
pub ghost struct MessageV {
    pub tags: Option<Seq<TagV>>,
    pub source: Option<SourceV>,
    pub command: CommandV,
    pub params: Option<Seq<Seq<char>>>,
}

/// One protocol message. Immutable once parsed or constructed.
#[derive(Debug, PartialEq)]
pub struct Message {
    tags: Option<Vec<Tag>>,
    source: Option<Source>,
    command: Command,
    params: Option<Params>,
}

impl View for Message {
    type V = MessageV;

    closed spec fn view(&self) -> MessageV {
        MessageV {
            tags: match self.tags {
                Some(v) => Some(tags_view(v@)),
                None => None,
            },
            source: match self.source {
                Some(s) => Some(s@),
                None => None,
            },
            command: self.command@,
            params: match self.params {
                Some(p) => Some(p@),
                None => None,
            },
        }
    }
}

/// The message denoted by the wire text `s`, or `None` when `s` is
/// malformed: it holds no CRLF, a tag or source segment never ends in a
/// space, or no command token can be found. Parsing stops at the first
/// CRLF; text after it is ignored.
pub open spec fn spec_parse(s: Seq<char>) -> Option<MessageV> {
    let end = find_crlf(s, 0);
    if end == s.len() {
        None
    } else {
        match spec_tags(s, 0, end) {
            None => None,
            Some((tg, after_tags)) => match spec_source(s, after_tags, end) {
                None => None,
                Some((sc, after_source)) => match spec_command_stage(s, after_source, end) {
                    None => None,
                    Some((cm, after_command)) => Some(
                        MessageV {
                            tags: tg,
                            source: sc,
                            command: cm,
                            params: spec_params(s, after_command, end),
                        },
                    ),
                },
            },
        }
    }
}

/// The wire text of a message: the command's canonical text, the
/// space-joined parameters after a single separating space if the list is
/// present, and the terminating CRLF. Tags and source are not emitted.
pub open spec fn spec_encode(m: MessageV) -> Seq<char> {
    match m.params {
        None => spec_cmd_text(m.command) + seq!['\r', '\n'],
        Some(ps) => spec_cmd_text(m.command) + seq![' '] + spec_join_params(ps) + seq!['\r', '\n'],
    }
}

/// The shape of every encoded message: it ends in CRLF, and when a
/// parameter list is present the text is the command's token, exactly one
/// space, then the space-joined parameters — the first parameter follows
/// that single space immediately, and the command's token itself holds no
/// space. Without a parameter list the command is followed by CRLF alone,
/// with no trailing space.
pub proof fn lemma_encode_shape(m: MessageV)
    requires
        crate::command::wf_command(m.command),
    ensures
        spec_encode(m).len() >= 2,
        spec_encode(m)[spec_encode(m).len() - 2] == '\r',
        spec_encode(m)[spec_encode(m).len() - 1] == '\n',
        forall|i: int|
            0 <= i < spec_cmd_text(m.command).len() ==> #[trigger] spec_cmd_text(m.command)[i]
                != ' ',
        m.params is None ==> spec_encode(m) == spec_cmd_text(m.command) + seq!['\r', '\n'],
        m.params matches Some(ps) ==> {
            &&& spec_encode(m) == spec_cmd_text(m.command) + seq![' '] + spec_join_params(ps)
                + seq!['\r', '\n']
            &&& spec_encode(m)[spec_cmd_text(m.command).len() as int] == ' '
            &&& ps.len() > 0 ==> spec_encode(m).subrange(
                spec_cmd_text(m.command).len() + 1 as int,
                spec_cmd_text(m.command).len() + 1 + ps[0].len() as int,
            ) == ps[0]
        },
{
    crate::command::lemma_cmd_text_no_space(m.command);
    let t = spec_cmd_text(m.command);
    match m.params {
        None => {},
        Some(ps) => {
            let e = spec_encode(m);
            assert(e[t.len() as int] == (seq![' '])[0]);
            if ps.len() > 0 {
                crate::param::lemma_join_starts_with_first(ps);
                let j = spec_join_params(ps);
                assert(e.subrange(t.len() + 1 as int, t.len() + 1 + ps[0].len() as int)
                    =~= j.subrange(0, ps[0].len() as int));
            }
        },
    }
}

impl Message {
    /// A tagless, sourceless message with the given command and parameters.
    pub fn new(command: Command, params: Vec<&str>) -> (r: Message)
        ensures
            r@.tags is None,
            r@.source is None,
            r@.command == command@,
            r@.params matches Some(ps) && ps.len() == params@.len() && forall|i: int|
                0 <= i < ps.len() ==> ps[i] == params@[i]@,
    {
        let mut ps = Params::new();
        let n = params.len();
        let mut i: usize = 0;
        while i < n
            invariant
                i <= n,
                ps@.len() == i,
                forall|j: int| 0 <= j < i ==> ps@[j] == params@[j]@,
            decreases n - i,
        {
            ps.add(Param::new(params[i]));
            i = i + 1;
        }
        Message { tags: None, source: None, command, params: Some(ps) }
    }

    /// A bare keepalive probe: `PING` with no parameters.
    pub fn ping() -> (r: Message)
        ensures
            r@.tags is None,
            r@.source is None,
            r@.command == CommandV::Ping,
            r@.params is None,
    {
        Message { tags: None, source: None, command: Command::Ping, params: None }
    }

    /// The keepalive reply: `PONG <server>`.
    pub fn pong(server: Param) -> (r: Message)
        ensures
            r@.tags is None,
            r@.source is None,
            r@.command == CommandV::Pong,
            r@.params == Some(seq![server@]),
    {
        let ghost sv = server@;
        let mut ps = Params::new();
        ps.add(server);
        proof {
            assert(ps@ =~= seq![sv]);
        }
        Message { tags: None, source: None, command: Command::Pong, params: Some(ps) }
    }

    /// A message-of-the-day request: `MOTD` with no parameters.
    pub fn motd() -> (r: Message)
        ensures
            r@.tags is None,
            r@.source is None,
            r@.command == CommandV::MessageOfTheDay,
            r@.params is None,
    {
        Message { tags: None, source: None, command: Command::MessageOfTheDay, params: None }
    }

    /// An outbound chat message carrying `message` as its single parameter.
    /// `nick` names the local sender; outbound messages never carry a
    /// source (or tags), so it does not appear in the message.
    #[allow(unused_variables)]
    pub fn priv_msg(nick: String, message: String) -> (r: Message)
        ensures
            r@.tags is None,
            r@.source is None,
            r@.command == CommandV::PrivMsg,
            r@.params == Some(seq![message@]),
    {
        let ghost mv = message@;
        let mut ps = Params::new();
        ps.add(Param::from_string(message));
        proof {
            assert(ps@ =~= seq![mv]);
        }
        Message { tags: None, source: None, command: Command::PrivMsg, params: Some(ps) }
    }

    /// Get a reference to the message's tags.
    pub fn tags(&self) -> (r: Option<&Vec<Tag>>)
        ensures
            match r {
                Some(v) => self@.tags == Some(tags_view(v@)),
                None => self@.tags is None,
            },
    {
        self.tags.as_ref()
    }

    /// Get a reference to the message's source.
    pub fn source(&self) -> (r: Option<&Source>)
        ensures
            match r {
                Some(s) => self@.source == Some(s@),
                None => self@.source is None,
            },
    {
        self.source.as_ref()
    }

    /// Get a reference to the message's command.
    pub fn command(&self) -> (r: &Command)
        ensures
            r@ == self@.command,
    {
        &self.command
    }

    /// The parameter at `index`: `Some` exactly when the message has a
    /// parameter list that long.
    pub fn get_param(&self, index: usize) -> (r: Option<&Param>)
        ensures
            match self@.params {
                Some(ps) => {
                    &&& index < ps.len() ==> (r matches Some(p) && p@ == ps[index as int])
                    &&& index >= ps.len() ==> r is None
                },
                None => r is None,
            },
    {
        match &self.params {
            Some(p) => p.get(index),
            None => None,
        }
    }

    /// Parses one complete, CRLF-terminated protocol line. Returns `Ok`
    /// exactly when the line is well-formed; the error carries the
    /// offending raw text. Never panics.
    pub fn parse(raw: &str) -> (r: Result<Message, ParseError>)
        ensures
            r is Ok <==> spec_parse(raw@) is Some,
            r matches Ok(m) ==> spec_parse(raw@) == Some(m@),
            r matches Err(e) ==> e@ == raw@,
    {
        let s = str_to_chars(raw);
        let end = find_crlf_exec(&s, 0);
        proof {
            lemma_find_crlf(s@, 0);
        }
        if end == s.len() {
            return Err(ParseError { text: raw.to_owned() });
        }
        let (tags, after_tags) = match parser::tags(&s, 0, end) {
            None => {
                return Err(ParseError { text: raw.to_owned() });
            },
            Some(x) => x,
        };
        let (source, after_source) = match parser::source(&s, after_tags, end) {
            None => {
                return Err(ParseError { text: raw.to_owned() });
            },
            Some(x) => x,
        };
        let (command, after_command) = match parser::command(&s, after_source, end) {
            None => {
                return Err(ParseError { text: raw.to_owned() });
            },
            Some(x) => x,
        };
        let params = parser::params(&s, after_command, end);
        Ok(Message { tags, source, command, params })
    }

    /// The wire text of this message.
    pub fn encode(&self) -> (r: String)
        ensures
            r@ == spec_encode(self@),
    {
        let mut out: Vec<char> = Vec::new();
        self.command.push_text(&mut out);
        match &self.params {
            Some(ps) => {
                out.push(' ');
                ps.push_joined(&mut out);
            },
            None => {},
        }
        out.push('\r');
        out.push('\n');
        proof {
            assert(out@ =~= spec_encode(self@));
        }
        crate::chars::chars_to_string(&out)
    }

    /// The wire bytes of this message: the UTF-8 encoding of its wire text.
    pub fn as_bytes(&self) -> (r: Vec<u8>)
        ensures
            r@ == vstd::utf8::encode_utf8(spec_encode(self@)),
    {
        let s = self.encode();
        s.as_str().as_bytes_vec()
    }
}

} // verus!
