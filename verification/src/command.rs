//! The command of a message: a known textual verb, a known 3-digit numeric
//! reply, or an unknown token preserved verbatim.
use vstd::prelude::*;

use crate::chars::{chars_eq_str, chars_to_string, push_str_chars, str_to_chars};

verus! {

/// The verb of a message. `Numeric` carries an arbitrary reply code;
/// the named `Rpl*` variants stand for the numeric replies this client
/// consumes (001-004, 372, 375, 376) and encode as their zero-padded
/// digits, not as their alias names. `Unknown` preserves the original
/// token of any verb the client does not know.
#[derive(Debug, PartialEq)]
pub enum Command {
    Numeric(u32),
    Cap,
    Notice,
    Nick,
    User,
    Join,
    PrivMsg,
    Ping,
    Pong,
    Error,
    RplWelcome,
    RplYourHost,
    RplCreated,
    RplMyInfo,
    MessageOfTheDay,
    RplMotd,
    RplMotdStart,
    RplEndOfMotd,
    Unknown(String),
}

/// Mathematical model of [`Command`]: the unknown token is a character sequence.
pub ghost enum CommandV {
    Numeric(u32),
    Cap,
    Notice,
    Nick,
    User,
    Join,
    PrivMsg,
    Ping,
    Pong,
    Error,
    RplWelcome,
    RplYourHost,
    RplCreated,
    RplMyInfo,
    MessageOfTheDay,
    RplMotd,
    RplMotdStart,
    RplEndOfMotd,
    Unknown(Seq<char>),
}

impl View for Command {
    type V = CommandV;

    open spec fn view(&self) -> CommandV {
        match self {
            Command::Numeric(n) => CommandV::Numeric(*n),
            Command::Cap => CommandV::Cap,
            Command::Notice => CommandV::Notice,
            Command::Nick => CommandV::Nick,
            Command::User => CommandV::User,
            Command::Join => CommandV::Join,
            Command::PrivMsg => CommandV::PrivMsg,
            Command::Ping => CommandV::Ping,
            Command::Pong => CommandV::Pong,
            Command::Error => CommandV::Error,
            Command::RplWelcome => CommandV::RplWelcome,
            Command::RplYourHost => CommandV::RplYourHost,
            Command::RplCreated => CommandV::RplCreated,
            Command::RplMyInfo => CommandV::RplMyInfo,
            Command::MessageOfTheDay => CommandV::MessageOfTheDay,
            Command::RplMotd => CommandV::RplMotd,
            Command::RplMotdStart => CommandV::RplMotdStart,
            Command::RplEndOfMotd => CommandV::RplEndOfMotd,
            Command::Unknown(s) => CommandV::Unknown(s@),
        }
    }
}

/// The decimal digit `d` (`0 <= d <= 9`) as a character.
pub open spec fn digit_char(d: int) -> char {
    ((48 + d) as u8) as char
}

/// The decimal digits of `n`, most significant first, no leading zeros.
pub open spec fn spec_digits(n: int) -> Seq<char>
    recommends
        n >= 0,
    decreases n,
{
    if n < 10 {
        seq![digit_char(n)]
    } else {
        spec_digits(n / 10) + seq![digit_char(n % 10)]
    }
}

/// The decimal digits of `n`, zero-padded on the left to at least three digits.
pub open spec fn spec_numeric_text(n: u32) -> Seq<char> {
    if n < 10 {
        seq!['0', '0'] + spec_digits(n as int)
    } else if n < 100 {
        seq!['0'] + spec_digits(n as int)
    } else {
        spec_digits(n as int)
    }
}

/// The canonical wire text of a command. Known numeric replies render as
/// their three digits; an unknown token renders verbatim.
pub open spec fn spec_cmd_text(c: CommandV) -> Seq<char> {
    match c {
        CommandV::Numeric(n) => spec_numeric_text(n),
        CommandV::Cap => "CAP"@,
        CommandV::Notice => "NOTICE"@,
        CommandV::Nick => "NICK"@,
        CommandV::User => "USER"@,
        CommandV::Join => "JOIN"@,
        CommandV::PrivMsg => "PRIVMSG"@,
        CommandV::Ping => "PING"@,
        CommandV::Pong => "PONG"@,
        CommandV::Error => "ERROR"@,
        CommandV::RplWelcome => "001"@,
        CommandV::RplYourHost => "002"@,
        CommandV::RplCreated => "003"@,
        CommandV::RplMyInfo => "004"@,
        CommandV::MessageOfTheDay => "MOTD"@,
        CommandV::RplMotd => "372"@,
        CommandV::RplMotdStart => "375"@,
        CommandV::RplEndOfMotd => "376"@,
        CommandV::Unknown(s) => s,
    }
}

/// Whether `c` is an ASCII decimal digit.
pub open spec fn is_ascii_digit(c: char) -> bool {
    48 <= c as int && c as int <= 57
}

/// The value of the ASCII decimal digit `c`.
pub open spec fn digit_value(c: char) -> int {
    c as int - 48
}

/// Whether `tok` is exactly three ASCII decimal digits.
pub open spec fn is_three_digits(tok: Seq<char>) -> bool {
    tok.len() == 3 && is_ascii_digit(tok[0]) && is_ascii_digit(tok[1]) && is_ascii_digit(tok[2])
}

/// The numeric value of a three-digit token.
pub open spec fn three_digit_value(tok: Seq<char>) -> int {
    digit_value(tok[0]) * 100 + digit_value(tok[1]) * 10 + digit_value(tok[2])
}

/// The command a wire token denotes: a known verb or one of its textual
/// aliases, a named numeric reply, any other token of exactly three digits
/// as `Numeric` carrying its value, or `Unknown` carrying the token itself.
pub open spec fn spec_command_of(tok: Seq<char>) -> CommandV {
    if tok == "NOTICE"@ {
        CommandV::Notice
    } else if tok == "PRIVMSG"@ {
        CommandV::PrivMsg
    } else if tok == "NICK"@ {
        CommandV::Nick
    } else if tok == "CAP"@ {
        CommandV::Cap
    } else if tok == "USER"@ {
        CommandV::User
    } else if tok == "JOIN"@ {
        CommandV::Join
    } else if tok == "PING"@ {
        CommandV::Ping
    } else if tok == "PONG"@ {
        CommandV::Pong
    } else if tok == "ERROR"@ {
        CommandV::Error
    } else if tok == "MOTD"@ {
        CommandV::MessageOfTheDay
    } else if tok == "RPL_MOTD"@ {
        CommandV::RplMotd
    } else if tok == "RPL_MOTDSTART"@ {
        CommandV::RplMotdStart
    } else if tok == "RPL_ENDOFMOTD"@ {
        CommandV::RplEndOfMotd
    } else if tok == "001"@ {
        CommandV::RplWelcome
    } else if tok == "002"@ {
        CommandV::RplYourHost
    } else if tok == "003"@ {
        CommandV::RplCreated
    } else if tok == "004"@ {
        CommandV::RplMyInfo
    } else if tok == "372"@ {
        CommandV::RplMotd
    } else if tok == "375"@ {
        CommandV::RplMotdStart
    } else if tok == "376"@ {
        CommandV::RplEndOfMotd
    } else if is_three_digits(tok) {
        CommandV::Numeric(three_digit_value(tok) as u32)
    } else {
        CommandV::Unknown(tok)
    }
}

/// Whether `c` is an ASCII decimal digit.
fn is_digit(c: char) -> (r: bool)
    ensures
        r == is_ascii_digit(c),
{
    '0' <= c && c <= '9'
}

impl Command {
    /// The command denoted by the token spelled by `tok`.
    pub fn from_chars(tok: &Vec<char>) -> (r: Command)
        ensures
            r@ == spec_command_of(tok@),
    {
        if chars_eq_str(tok, "NOTICE") {
            Command::Notice
        } else if chars_eq_str(tok, "PRIVMSG") {
            Command::PrivMsg
        } else if chars_eq_str(tok, "NICK") {
            Command::Nick
        } else if chars_eq_str(tok, "CAP") {
            Command::Cap
        } else if chars_eq_str(tok, "USER") {
            Command::User
        } else if chars_eq_str(tok, "JOIN") {
            Command::Join
        } else if chars_eq_str(tok, "PING") {
            Command::Ping
        } else if chars_eq_str(tok, "PONG") {
            Command::Pong
        } else if chars_eq_str(tok, "ERROR") {
            Command::Error
        } else if chars_eq_str(tok, "MOTD") {
            Command::MessageOfTheDay
        } else if chars_eq_str(tok, "RPL_MOTD") {
            Command::RplMotd
        } else if chars_eq_str(tok, "RPL_MOTDSTART") {
            Command::RplMotdStart
        } else if chars_eq_str(tok, "RPL_ENDOFMOTD") {
            Command::RplEndOfMotd
        } else if chars_eq_str(tok, "001") {
            Command::RplWelcome
        } else if chars_eq_str(tok, "002") {
            Command::RplYourHost
        } else if chars_eq_str(tok, "003") {
            Command::RplCreated
        } else if chars_eq_str(tok, "004") {
            Command::RplMyInfo
        } else if chars_eq_str(tok, "372") {
            Command::RplMotd
        } else if chars_eq_str(tok, "375") {
            Command::RplMotdStart
        } else if chars_eq_str(tok, "376") {
            Command::RplEndOfMotd
        } else if tok.len() == 3 && is_digit(tok[0]) && is_digit(tok[1]) && is_digit(tok[2]) {
            let d0 = tok[0] as u32 - 48;
            let d1 = tok[1] as u32 - 48;
            let d2 = tok[2] as u32 - 48;
            Command::Numeric(d0 * 100 + d1 * 10 + d2)
        } else {
            Command::Unknown(chars_to_string(tok))
        }
    }

    /// The command denoted by the wire token `tok`.
    pub fn from_token(tok: &str) -> (r: Command)
        ensures
            r@ == spec_command_of(tok@),
    {
        let v = str_to_chars(tok);
        Command::from_chars(&v)
    }

    /// Appends the canonical wire text of this command to `out`.
    pub fn push_text(&self, out: &mut Vec<char>)
        ensures
            final(out)@ == old(out)@ + spec_cmd_text(self@),
    {
        match self {
            Command::Numeric(n) => {
                if *n < 10 {
                    out.push('0');
                    out.push('0');
                } else if *n < 100 {
                    out.push('0');
                }
                push_digits(*n, out);
            },
            Command::Cap => push_str_chars(out, "CAP"),
            Command::Notice => push_str_chars(out, "NOTICE"),
            Command::Nick => push_str_chars(out, "NICK"),
            Command::User => push_str_chars(out, "USER"),
            Command::Join => push_str_chars(out, "JOIN"),
            Command::PrivMsg => push_str_chars(out, "PRIVMSG"),
            Command::Ping => push_str_chars(out, "PING"),
            Command::Pong => push_str_chars(out, "PONG"),
            Command::Error => push_str_chars(out, "ERROR"),
            Command::RplWelcome => push_str_chars(out, "001"),
            Command::RplYourHost => push_str_chars(out, "002"),
            Command::RplCreated => push_str_chars(out, "003"),
            Command::RplMyInfo => push_str_chars(out, "004"),
            Command::MessageOfTheDay => push_str_chars(out, "MOTD"),
            Command::RplMotd => push_str_chars(out, "372"),
            Command::RplMotdStart => push_str_chars(out, "375"),
            Command::RplEndOfMotd => push_str_chars(out, "376"),
            Command::Unknown(s) => push_str_chars(out, s.as_str()),
        }
    }

    /// The canonical wire text of this command.
    pub fn text(&self) -> (r: String)
        ensures
            r@ == spec_cmd_text(self@),
    {
        let mut out: Vec<char> = Vec::new();
        self.push_text(&mut out);
        chars_to_string(&out)
    }
}

/// A command whose canonical text is one clean wire token: for an unknown
/// command, its token is nonempty and holds no space; every known command
/// is well formed.
pub open spec fn wf_command(c: CommandV) -> bool {
    match c {
        CommandV::Unknown(s) => s.len() > 0 && (forall|i: int| 0 <= i < s.len() ==> s[i] != ' '),
        _ => true,
    }
}

/// The decimal digits of a number contain no space.
pub proof fn lemma_digits_no_space(n: int)
    requires
        n >= 0,
    ensures
        forall|i: int|
            0 <= i < spec_digits(n).len() ==> #[trigger] spec_digits(n)[i] != ' ',
    decreases n,
{
    if n < 10 {
        assert(spec_digits(n) == seq![digit_char(n)]);
        assert(digit_char(n) != ' ');
    } else {
        lemma_digits_no_space(n / 10);
        assert(digit_char(n % 10) != ' ');
        assert(spec_digits(n) == spec_digits(n / 10) + seq![digit_char(n % 10)]);
        assert forall|i: int| 0 <= i < spec_digits(n).len() implies #[trigger] spec_digits(n)[i]
            != ' ' by {
            if i < spec_digits(n / 10).len() {
                assert(spec_digits(n)[i] == spec_digits(n / 10)[i]);
            } else {
                assert(spec_digits(n)[i] == digit_char(n % 10));
            }
        }
    }
}

/// The canonical text of a well-formed command is nonempty and holds no
/// space: on the wire it reads as one token.
pub proof fn lemma_cmd_text_no_space(c: CommandV)
    requires
        wf_command(c),
    ensures
        spec_cmd_text(c).len() > 0,
        forall|i: int|
            0 <= i < spec_cmd_text(c).len() ==> #[trigger] spec_cmd_text(c)[i] != ' ',
{
    reveal_strlit("CAP");
    reveal_strlit("NOTICE");
    reveal_strlit("NICK");
    reveal_strlit("USER");
    reveal_strlit("JOIN");
    reveal_strlit("PRIVMSG");
    reveal_strlit("PING");
    reveal_strlit("PONG");
    reveal_strlit("ERROR");
    reveal_strlit("MOTD");
    reveal_strlit("001");
    reveal_strlit("002");
    reveal_strlit("003");
    reveal_strlit("004");
    reveal_strlit("372");
    reveal_strlit("375");
    reveal_strlit("376");
    match c {
        CommandV::Numeric(n) => {
            lemma_digits_no_space(n as int);
        },
        _ => {},
    }
}

/// Appends the decimal digits of `n`, most significant first, to `out`.
fn push_digits(n: u32, out: &mut Vec<char>)
    ensures
        final(out)@ == old(out)@ + spec_digits(n as int),
    decreases n,
{
    if n >= 10 {
        push_digits(n / 10, out);
    }
    let d: u8 = (n % 10) as u8;
    out.push((48 + d) as char);
}

} // verus!
