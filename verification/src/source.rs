//! The optional originator of a message: a bare nickname, or a full
//! `nick!user@host` triple. `user` and `host` are present together or
//! not at all.
use vstd::prelude::*;

verus! {

/// Originator identity. Either `nick` alone, or all three fields.
#[derive(Debug, PartialEq)]
pub struct Source {
    pub nick: String,
    pub user: Option<String>,
    pub host: Option<String>,
}

/// Mathematical model of [`Source`].
pub ghost struct SourceV {
    pub nick: Seq<char>,
    pub user: Option<Seq<char>>,
    pub host: Option<Seq<char>>,
}

impl View for Source {
    type V = SourceV;

    open spec fn view(&self) -> SourceV {
        SourceV {
            nick: self.nick@,
            user: match self.user {
                Some(u) => Some(u@),
                None => None,
            },
            host: match self.host {
                Some(h) => Some(h@),
                None => None,
            },
        }
    }
}

impl SourceV {
    /// `user` and `host` are populated together or not at all.
    pub open spec fn wf(self) -> bool {
        self.user is Some <==> self.host is Some
    }
}

/// The source rendered as it stands on the wire: `nick!user@host` when the
/// triple is full, the bare nick otherwise.
pub open spec fn spec_source_text(s: SourceV) -> Seq<char> {
    match (s.user, s.host) {
        (Some(u), Some(h)) => s.nick + "!"@ + u + "@"@ + h,
        _ => s.nick,
    }
}

impl Source {
    /// A source that is a bare nickname.
    pub fn new(nick: String) -> (r: Source)
        ensures
            r@ == (SourceV { nick: nick@, user: None, host: None }),
            r@.wf(),
    {
        Source { nick, user: None, host: None }
    }

    /// Whether this source's nickname is `nick`: the convenience
    /// comparison against a bare nick string looks at the nick field only.
    pub fn nick_is(&self, nick: &str) -> (r: bool)
        ensures
            r <==> self@.nick == nick@,
    {
        let mine = crate::chars::str_to_chars(self.nick.as_str());
        crate::chars::chars_eq_str(&mine, nick)
    }

    /// The source's wire text: `nick!user@host`, or the bare nick.
    pub fn text(&self) -> (r: String)
        ensures
            r@ == spec_source_text(self@),
    {
        match (&self.user, &self.host) {
            (Some(user), Some(host)) => {
                let mut t = self.nick.clone();
                t.append("!");
                t.append(user.as_str());
                t.append("@");
                t.append(host.as_str());
                t
            },
            _ => self.nick.clone(),
        }
    }

    /// A fully decomposed `nick!user@host` source.
    pub fn new_with_user_and_host(nick: String, user: String, host: String) -> (r: Source)
        ensures
            r@ == (SourceV { nick: nick@, user: Some(user@), host: Some(host@) }),
            r@.wf(),
    {
        Source { nick, user: Some(user), host: Some(host) }
    }
}

} // verus!
