//! The session state machine: registration, capability negotiation,
//! channel join and keepalive, sequenced over one connection. The machine
//! consumes inbound messages and produces the outbound replies; the caller
//! owns the transport, performs the reads and writes, and passes every
//! inbound message to the presentation boundary unchanged.
use vstd::prelude::*;

use crate::command::{Command, CommandV};
use crate::message::{Message, MessageV};
use crate::param::Param;

verus! {

/// Where one connection stands: phases advance `Connecting` →
/// `Registering` → `Joining` → `Active`, and `Active` persists.
#[derive(Clone, Copy, Debug, PartialEq, Eq, Structural)]
pub enum Phase {
    Connecting,
    Registering,
    Joining,
    Active,
}

/// Mathematical model of [`Session`].
pub ghost struct SessionV {
    pub phase: Phase,
    pub nick: Seq<char>,
    pub channel: Seq<char>,
}

/// An inbound message the machine cannot react to: a keepalive probe that
/// carries no token. The caller should log and skip it.
#[derive(Debug, PartialEq)]
pub struct ProtocolViolation {}

/// The view of a message vector.
pub open spec fn msgs_view(v: Seq<Message>) -> Seq<MessageV> {
    v.map_values(|m: Message| m@)
}

/// The capability negotiation start: `CAP LS 302`.
pub open spec fn spec_cap_ls() -> MessageV {
    MessageV {
        tags: None,
        source: None,
        command: CommandV::Cap,
        params: Some(seq!["LS"@, "302"@]),
    }
}

/// The nick assignment: `NICK <nick>`.
pub open spec fn spec_nick_msg(nick: Seq<char>) -> MessageV {
    MessageV { tags: None, source: None, command: CommandV::Nick, params: Some(seq![nick]) }
}

/// The user registration line: `USER <nick> 0 * :Developer`.
pub open spec fn spec_user_msg(nick: Seq<char>) -> MessageV {
    MessageV {
        tags: None,
        source: None,
        command: CommandV::User,
        params: Some(seq![nick + " 0 * :Developer"@]),
    }
}

/// The capability negotiation end: `CAP END`.
pub open spec fn spec_cap_end() -> MessageV {
    MessageV { tags: None, source: None, command: CommandV::Cap, params: Some(seq!["END"@]) }
}

/// The one-shot registration batch, in emission order.
pub open spec fn spec_register(nick: Seq<char>) -> Seq<MessageV> {
    seq![spec_cap_ls(), spec_nick_msg(nick), spec_user_msg(nick), spec_cap_end()]
}

/// The channel name normalized to carry exactly one `#` prefix: one is
/// added only when the name does not already start with `#`.
pub open spec fn spec_channel_name(channel: Seq<char>) -> Seq<char> {
    if channel.len() > 0 && channel[0] == '#' {
        channel
    } else {
        "#"@ + channel
    }
}

/// The join request: `JOIN` with the normalized channel name.
pub open spec fn spec_join_msg(channel: Seq<char>) -> MessageV {
    MessageV {
        tags: None,
        source: None,
        command: CommandV::Join,
        params: Some(seq![spec_channel_name(channel)]),
    }
}

/// The message-of-the-day marker emitted on welcome.
pub open spec fn spec_motd_msg() -> MessageV {
    MessageV { tags: None, source: None, command: CommandV::MessageOfTheDay, params: None }
}

/// The keepalive reply: `PONG <token>`.
pub open spec fn spec_pong(token: Seq<char>) -> MessageV {
    MessageV { tags: None, source: None, command: CommandV::Pong, params: Some(seq![token]) }
}

/// The registration batch for `nick`: capability negotiation start, nick
/// assignment, user registration, capability negotiation end, in order.
pub fn register(nick: &str) -> (r: Vec<Message>)
    ensures
        msgs_view(r@) == spec_register(nick@),
{
    let mut r: Vec<Message> = Vec::new();
    let mut cap_ls: Vec<&str> = Vec::new();
    cap_ls.push("LS");
    cap_ls.push("302");
    r.push(Message::new(Command::Cap, cap_ls));
    let mut nick_args: Vec<&str> = Vec::new();
    nick_args.push(nick);
    r.push(Message::new(Command::Nick, nick_args));
    let mut user_param = nick.to_owned();
    user_param.append(" 0 * :Developer");
    let mut user_args: Vec<&str> = Vec::new();
    user_args.push(user_param.as_str());
    r.push(Message::new(Command::User, user_args));
    let mut cap_end: Vec<&str> = Vec::new();
    cap_end.push("END");
    r.push(Message::new(Command::Cap, cap_end));
    proof {
        assert(r@[0]@.params->Some_0 =~= seq!["LS"@, "302"@]);
        assert(r@[1]@.params->Some_0 =~= seq![nick@]);
        assert(r@[2]@.params->Some_0 =~= seq![nick@ + " 0 * :Developer"@]);
        assert(r@[3]@.params->Some_0 =~= seq!["END"@]);
        assert(msgs_view(r@) =~= spec_register(nick@));
    }
    r
}

/// The join request for `channel_name`, normalized to carry exactly one
/// `#` prefix: an existing `#` is not doubled.
pub fn join(channel_name: &str) -> (r: Vec<Message>)
    ensures
        msgs_view(r@) == seq![spec_join_msg(channel_name@)],
{
    let channel = if channel_name.unicode_len() > 0 && channel_name.get_char(0) == '#' {
        channel_name.to_owned()
    } else {
        let mut prefixed = "#".to_owned();
        prefixed.append(channel_name);
        prefixed
    };
    let mut args: Vec<&str> = Vec::new();
    args.push(channel.as_str());
    let mut r: Vec<Message> = Vec::new();
    r.push(Message::new(Command::Join, args));
    proof {
        assert(r@[0]@.params->Some_0 =~= seq![spec_channel_name(channel_name@)]);
        assert(msgs_view(r@) =~= seq![spec_join_msg(channel_name@)]);
    }
    r
}

/// What the machine does with one inbound message: the state afterwards
/// and the replies to send, in order. `None` is a protocol violation (a
/// `PING` with no token), on which the state does not change.
///
/// A `PING` with a token draws one `PONG` in every phase. A welcome reply
/// while `Registering` advances to `Joining` and emits the
/// message-of-the-day marker and exactly one join request; in any other
/// phase a welcome emits nothing and changes nothing. A `JOIN` echo while
/// `Joining` advances to `Active`. Everything else leaves the state
/// unchanged and emits nothing; the caller passes the message through to
/// the presentation boundary either way.
pub open spec fn spec_step(s: SessionV, m: MessageV) -> Option<(SessionV, Seq<MessageV>)> {
    match m.command {
        CommandV::Ping => match m.params {
            Some(ps) => if ps.len() > 0 {
                Some((s, seq![spec_pong(ps[0])]))
            } else {
                None
            },
            None => None,
        },
        CommandV::RplWelcome => if s.phase == Phase::Registering {
            Some(
                (
                    SessionV { phase: Phase::Joining, ..s },
                    seq![spec_motd_msg(), spec_join_msg(s.channel)],
                ),
            )
        } else {
            Some((s, seq![]))
        },
        CommandV::Join => if s.phase == Phase::Joining {
            Some((SessionV { phase: Phase::Active, ..s }, seq![]))
        } else {
            Some((s, seq![]))
        },
        _ => Some((s, seq![])),
    }
}

/// The session state machine for one connection attempt. It owns nothing
/// but its state: the caller performs all transport work.
pub struct Session {
    phase: Phase,
    nick: String,
    channel: String,
}

impl View for Session {
    type V = SessionV;

    closed spec fn view(&self) -> SessionV {
        SessionV { phase: self.phase, nick: self.nick@, channel: self.channel@ }
    }
}

impl Session {
    /// A fresh machine for one connection, still `Connecting`.
    pub fn new(nick: String, target_channel: String) -> (r: Session)
        ensures
            r@ == (SessionV { phase: Phase::Connecting, nick: nick@, channel: target_channel@ }),
    {
        Session { phase: Phase::Connecting, nick, channel: target_channel }
    }

    /// The current phase.
    pub fn phase(&self) -> (r: Phase)
        ensures
            r == self@.phase,
    {
        self.phase
    }

    /// Call once when the connection is established: while `Connecting`
    /// this advances to `Registering` and returns the registration batch;
    /// afterwards it returns nothing and changes nothing, so the batch is
    /// emitted exactly once per connection.
    pub fn on_connect(&mut self) -> (r: Vec<Message>)
        ensures
            old(self)@.phase == Phase::Connecting ==> {
                &&& final(self)@ == (SessionV { phase: Phase::Registering, ..old(self)@ })
                &&& msgs_view(r@) == spec_register(old(self)@.nick)
            },
            old(self)@.phase != Phase::Connecting ==> final(self)@ == old(self)@ && r@.len() == 0,
    {
        if self.phase == Phase::Connecting {
            self.phase = Phase::Registering;
            register(self.nick.as_str())
        } else {
            Vec::new()
        }
    }

    /// Reacts to one inbound message as [`spec_step`] says: the replies
    /// come back in emission order, and `Err` reports the protocol
    /// violation of a tokenless `PING`, with the state unchanged.
    pub fn handle(&mut self, m: &Message) -> (r: Result<Vec<Message>, ProtocolViolation>)
        ensures
            match spec_step(old(self)@, m@) {
                Some((s2, out)) => {
                    &&& final(self)@ == s2
                    &&& r matches Ok(v) && msgs_view(v@) == out
                },
                None => final(self)@ == old(self)@ && r is Err,
            },
    {
        match m.command() {
            Command::Ping => {
                match m.get_param(0) {
                    Some(p) => {
                        let mut v: Vec<Message> = Vec::new();
                        v.push(Message::pong(Param::new(p.as_str())));
                        proof {
                            assert(msgs_view(v@) =~= seq![spec_pong(m@.params->Some_0[0])]);
                        }
                        Ok(v)
                    },
                    None => Err(ProtocolViolation {}),
                }
            },
            Command::RplWelcome => {
                if self.phase == Phase::Registering {
                    self.phase = Phase::Joining;
                    let mut v: Vec<Message> = Vec::new();
                    let m0 = Message::motd();
                    let ghost m0v = m0@;
                    v.push(m0);
                    let mut j = join(self.channel.as_str());
                    let ghost jv = j@;
                    v.append(&mut j);
                    proof {
                        assert(msgs_view(jv).len() == jv.len());
                        assert(msgs_view(jv)[0] == jv[0]@);
                        assert(v@.len() == 2);
                        assert(v@[0]@ == m0v);
                        assert(v@[1]@ == jv[0]@);
                        assert(msgs_view(v@)[0] == v@[0]@);
                        assert(msgs_view(v@)[1] == v@[1]@);
                        assert(msgs_view(v@) =~= seq![
                            spec_motd_msg(),
                            spec_join_msg(old(self)@.channel),
                        ]);
                    }
                    Ok(v)
                } else {
                    let v: Vec<Message> = Vec::new();
                    proof {
                        assert(msgs_view(v@) =~= Seq::<MessageV>::empty());
                    }
                    Ok(v)
                }
            },
            Command::Join => {
                if self.phase == Phase::Joining {
                    self.phase = Phase::Active;
                }
                let v: Vec<Message> = Vec::new();
                proof {
                    assert(msgs_view(v@) =~= Seq::<MessageV>::empty());
                }
                Ok(v)
            },
            _ => {
                let v: Vec<Message> = Vec::new();
                proof {
                    assert(msgs_view(v@) =~= Seq::<MessageV>::empty());
                }
                Ok(v)
            },
        }
    }
}

/// How many of the messages are join requests.
pub open spec fn spec_count_joins(out: Seq<MessageV>) -> nat
    decreases out.len(),
{
    if out.len() == 0 {
        0
    } else {
        (if out[0].command is Join {
            1nat
        } else {
            0nat
        }) + spec_count_joins(out.drop_first())
    }
}

/// Keepalive idempotence: a `PING` carrying a token draws exactly one
/// `PONG` carrying the same token, in every session state, and leaves the
/// state unchanged.
pub proof fn lemma_keepalive(s: SessionV, m: MessageV)
    requires
        m.command is Ping,
        m.params matches Some(ps) && ps.len() > 0,
    ensures
        spec_step(s, m) matches Some((s2, out)) && s2 == s && out =~= seq![
            spec_pong(m.params->Some_0[0]),
        ],
{
}

/// A welcome reply joins exactly once: while `Registering` it advances the
/// phase to `Joining` and enqueues the message-of-the-day marker and
/// exactly one join request; in any other phase it enqueues nothing and
/// changes nothing.
pub proof fn lemma_welcome_joins_once(s: SessionV, m: MessageV)
    requires
        m.command is RplWelcome,
    ensures
        spec_step(s, m) matches Some((s2, out)) && {
            &&& s.phase == Phase::Registering ==> {
                &&& s2 == (SessionV { phase: Phase::Joining, ..s })
                &&& out == seq![spec_motd_msg(), spec_join_msg(s.channel)]
                &&& spec_count_joins(out) == 1
            }
            &&& s.phase != Phase::Registering ==> s2 == s && out.len() == 0
        },
{
    if s.phase == Phase::Registering {
        let out = spec_step(s, m)->Some_0.1;
        assert(out.drop_first() =~= seq![spec_join_msg(s.channel)]);
        assert(out.drop_first().drop_first() =~= Seq::<MessageV>::empty());
        assert(spec_count_joins(Seq::<MessageV>::empty()) == 0);
        assert(spec_count_joins(out.drop_first()) == 1);
        assert(spec_count_joins(out) == 1);
    }
}

/// A duplicate welcome does not join again: across two consecutive welcome
/// replies the machine enqueues one join request when it was `Registering`
/// and none otherwise, and after the first it is never `Registering`.
pub proof fn lemma_welcome_idempotent(s: SessionV, m1: MessageV, m2: MessageV)
    requires
        m1.command is RplWelcome,
        m2.command is RplWelcome,
    ensures
        ({
            let (s1, out1) = spec_step(s, m1)->Some_0;
            let (s2, out2) = spec_step(s1, m2)->Some_0;
            spec_count_joins(out1 + out2) == if s.phase == Phase::Registering {
                1nat
            } else {
                0nat
            }
        }),
{
    lemma_welcome_joins_once(s, m1);
    let (s1, out1) = spec_step(s, m1)->Some_0;
    lemma_welcome_joins_once(s1, m2);
    let (s2, out2) = spec_step(s1, m2)->Some_0;
    if s.phase == Phase::Registering {
        assert(out1 + out2 =~= out1);
    } else {
        assert(out1 + out2 =~= Seq::<MessageV>::empty());
    }
}

} // verus!
