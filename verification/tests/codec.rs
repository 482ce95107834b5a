use ircproto::command::Command;
use ircproto::message::Message;
use ircproto::param::Param;
use ircproto::parser::{command, params, source, tag_pair, tags, Tag};
use ircproto::source::Source;

fn chars(s: &str) -> Vec<char> {
    s.chars().collect()
}

fn tag(key: &str, value: &str) -> Tag {
    Tag { key: key.to_string(), value: value.to_string() }
}

#[test]
fn test_as_bytes() {
    let msg = Message::new(Command::Cap, vec!["LS", "302"]);
    assert_eq!(msg.as_bytes(), b"CAP LS 302\r\n".to_vec());
}

#[test]
fn test_parse() {
    let raw = "@id=123;type=something :Guest1!textual@254D99FE.73C022D0.AC18634F.IP PRIVMSG #test_123 :Hello\r\n";
    let actual = Message::parse(raw).unwrap();
    assert_eq!(actual.tags(), Some(&vec![tag("id", "123"), tag("type", "something")]));
    assert_eq!(
        actual.source(),
        Some(&Source::new_with_user_and_host(
            "Guest1".to_string(),
            "textual".to_string(),
            "254D99FE.73C022D0.AC18634F.IP".to_string()
        ))
    );
    assert_eq!(actual.command(), &Command::PrivMsg);
    assert_eq!(actual.get_param(0), Some(&Param::new("#test_123")));
    assert_eq!(actual.get_param(1), Some(&Param::new("Hello")));
    assert_eq!(actual.get_param(2), None);
}

#[test]
fn test_parse_no_tags() {
    let raw = ":irc.jonkgrimes.com NOTICE * :*** Looking up your hostname...\r\n";
    let actual = Message::parse(raw).unwrap();
    assert_eq!(actual.tags(), None);
    assert_eq!(actual.source(), Some(&Source::new("irc.jonkgrimes.com".to_string())));
    assert_eq!(actual.command(), &Command::Notice);
    assert_eq!(actual.get_param(0), Some(&Param::new("*")));
    assert_eq!(actual.get_param(1), Some(&Param::new("*** Looking up your hostname...")));
}

#[test]
fn test_tag_empty_value() {
    let raw = chars("@a=b;c=32;k;rt=ql7 ");
    let (pairs, _) = tags(&raw, 0, raw.len()).unwrap();
    let expected = vec![tag("a", "b"), tag("c", "32"), tag("k", ""), tag("rt", "ql7")];
    assert_eq!(pairs, Some(expected));
}

#[test]
fn test_source() {
    let raw = chars(":irc.jonkgrimes.com ");
    let (src, _) = source(&raw, 0, raw.len()).unwrap();
    let expected = Some(Source::new("irc.jonkgrimes.com".to_string()));
    assert_eq!(src, expected);
}

#[test]
fn test_source_with_client() {
    let raw = chars(":Guest1!textual@254D99FE.73C022D0.AC18634F.IP ");
    let (src, _) = source(&raw, 0, raw.len()).unwrap();
    let expected = Some(Source::new_with_user_and_host(
        "Guest1".to_string(),
        "textual".to_string(),
        "254D99FE.73C022D0.AC18634F.IP".to_string(),
    ));
    assert_eq!(src, expected);
}

#[test]
fn test_host_with_control_characters() {
    let raw = chars(":Guest1!tex\x30tual@localhost ");
    let (src, _) = source(&raw, 0, raw.len()).unwrap();
    let expected = Some(Source::new_with_user_and_host(
        "Guest1".to_string(),
        "tex\x30tual".to_string(),
        "localhost".to_string(),
    ));
    assert_eq!(src, expected);
}

#[test]
fn test_host_with_unicode_characters() {
    let raw = chars(":Guest1!tex\u{3}tual@localhost ");
    let (src, _) = source(&raw, 0, raw.len()).unwrap();
    let expected = Some(Source::new_with_user_and_host(
        "Guest1".to_string(),
        "tex\u{3}tual".to_string(),
        "localhost".to_string(),
    ));
    assert_eq!(src, expected);
}

#[test]
fn test_tag() {
    let raw = chars("id=123AB");
    let actual = tag_pair(&raw, 0, raw.len());
    assert_eq!(actual, tag("id", "123AB"));
}

#[test]
fn test_tag_with_number_value() {
    let raw = chars("id=123");
    let actual = tag_pair(&raw, 0, raw.len());
    assert_eq!(actual, tag("id", "123"));
}

#[test]
fn test_no_value_tag() {
    let raw = chars("type=");
    let actual = tag_pair(&raw, 0, raw.len());
    assert_eq!(actual, tag("type", ""));
}

#[test]
fn test_tags() {
    let raw = chars("@id=123;type=sometype ");
    let (pairs, _) = tags(&raw, 0, raw.len()).unwrap();
    let expected = Some(vec![tag("id", "123"), tag("type", "sometype")]);
    assert_eq!(pairs, expected);
}

#[test]
fn test_tags_with_true_terminator() {
    let raw = chars("@id=123;type= ");
    let (pairs, _) = tags(&raw, 0, raw.len()).unwrap();
    let expected = vec![tag("id", "123"), tag("type", "")];
    assert_eq!(pairs.unwrap(), expected);
}

#[test]
fn test_command_parsing() {
    let raw = chars("NOTICE * :*** Looking up your hostname...");
    let (actual, _) = command(&raw, 0, raw.len()).unwrap();
    assert_eq!(actual, Command::Notice);
}

#[test]
fn test_params_parsing() {
    let raw = chars("* :*** Looking up your hostname...\r\n");
    let actual = params(&raw, 0, raw.len() - 2).unwrap();
    let expected = vec!["*".to_string(), "*** Looking up your hostname...".to_string()];
    assert_eq!(actual.to_vec(), expected);
}

#[test]
fn test_preceding_whitespace_params() {
    let raw = chars(" * :*** Looking up your hostname...\r\n");
    let actual = params(&raw, 0, raw.len() - 2).unwrap();
    let expected = vec!["*".to_string(), "*** Looking up your hostname...".to_string()];
    assert_eq!(actual.to_vec(), expected);
}

#[test]
fn test_message_parsing() {
    let raw = ":irc.jonkgrimes.com NOTICE * :*** Looking up your hostname...\r\n";
    let actual = Message::parse(raw).unwrap();
    assert_eq!(actual.tags(), None);
    assert_eq!(actual.source(), Some(&Source::new("irc.jonkgrimes.com".to_string())));
    assert_eq!(actual.command(), &Command::Notice);
    assert_eq!(actual.get_param(0), Some(&Param::new("*")));
    assert_eq!(actual.get_param(1), Some(&Param::new("*** Looking up your hostname...")));
}

#[test]
fn test_blank_params() {
    let raw = ":irc.example.com CAP * LIST :\r\n";
    let actual = Message::parse(raw).unwrap();
    assert_eq!(actual.tags(), None);
    assert_eq!(actual.source(), Some(&Source::new("irc.example.com".to_string())));
    assert_eq!(actual.command(), &Command::Cap);
    assert_eq!(actual.get_param(0), Some(&Param::new("*")));
    assert_eq!(actual.get_param(1), Some(&Param::new("LIST")));
    assert_eq!(actual.get_param(2), Some(&Param::new("")));
}

#[test]
fn test_space_preceding_params() {
    let raw = ":irc.example.com CAP  * LIST :\r\n";
    let actual = Message::parse(raw).unwrap();
    assert_eq!(actual.tags(), None);
    assert_eq!(actual.source(), Some(&Source::new("irc.example.com".to_string())));
    assert_eq!(actual.command(), &Command::Cap);
    assert_eq!(actual.get_param(0), Some(&Param::new("*")));
    assert_eq!(actual.get_param(1), Some(&Param::new("LIST")));
    assert_eq!(actual.get_param(2), Some(&Param::new("")));
}

#[test]
fn test_long_trailing_param() {
    let raw = "CAP REQ :sasl message-tags foo\r\n";
    let actual = Message::parse(raw).unwrap();
    assert_eq!(actual.tags(), None);
    assert_eq!(actual.source(), None);
    assert_eq!(actual.command(), &Command::Cap);
    assert_eq!(actual.get_param(0), Some(&Param::new("REQ")));
    assert_eq!(actual.get_param(1), Some(&Param::new("sasl message-tags foo")));
    assert_eq!(actual.get_param(2), None);
}

#[test]
fn test_privmsg_command() {
    let raw = ":dan!d@localhost PRIVMSG #chan :Hey!\r\n";
    let actual = Message::parse(raw).unwrap();
    assert_eq!(
        actual.source(),
        Some(&Source::new_with_user_and_host(
            "dan".to_string(),
            "d".to_string(),
            "localhost".to_string()
        ))
    );
    assert_eq!(actual.command(), &Command::PrivMsg);
    assert_eq!(actual.get_param(0), Some(&Param::new("#chan")));
    assert_eq!(actual.get_param(1), Some(&Param::new("Hey!")));
}

#[test]
fn test_no_trailing_param() {
    let raw = ":dan!d@localhost PRIVMSG #chan Hey!\r\n";
    let actual = Message::parse(raw).unwrap();
    assert_eq!(
        actual.source(),
        Some(&Source::new_with_user_and_host(
            "dan".to_string(),
            "d".to_string(),
            "localhost".to_string()
        ))
    );
    assert_eq!(actual.command(), &Command::PrivMsg);
    assert_eq!(actual.get_param(0), Some(&Param::new("#chan")));
    assert_eq!(actual.get_param(1), Some(&Param::new("Hey!")));
}

#[test]
fn encode_ends_with_crlf_and_single_space() {
    let msg = Message::new(Command::Cap, vec!["LS", "302"]);
    assert_eq!(msg.encode(), "CAP LS 302\r\n");
    let bare = Message::ping();
    assert_eq!(bare.encode(), "PING\r\n");
}

#[test]
fn encode_empty_param_list_is_distinct_from_absent() {
    let empty = Message::new(Command::Cap, vec![]);
    assert_eq!(empty.encode(), "CAP \r\n");
    let absent = Message::motd();
    assert_eq!(absent.encode(), "MOTD\r\n");
}

#[test]
fn encode_numerics_zero_padded() {
    assert_eq!(Command::Numeric(1).text(), "001");
    assert_eq!(Command::Numeric(42).text(), "042");
    assert_eq!(Command::Numeric(372).text(), "372");
    assert_eq!(Command::Numeric(1234).text(), "1234");
    assert_eq!(Command::RplWelcome.text(), "001");
    assert_eq!(Command::RplEndOfMotd.text(), "376");
    assert_eq!(Command::Unknown("WHOIS".to_string()).text(), "WHOIS");
}

#[test]
fn parse_known_numerics_and_verbs() {
    let m = Message::parse(":irc.example.com 001 Guest1 :Welcome\r\n").unwrap();
    assert_eq!(m.command(), &Command::RplWelcome);
    let m = Message::parse(":irc.example.com 376 Guest1 :End of /MOTD\r\n").unwrap();
    assert_eq!(m.command(), &Command::RplEndOfMotd);
    let m = Message::parse(":irc.example.com 005 Guest1 :are supported\r\n").unwrap();
    assert_eq!(m.command(), &Command::Numeric(5));
    let m = Message::parse(":irc.example.com 422 Guest1 :MOTD File is missing\r\n").unwrap();
    assert_eq!(m.command(), &Command::Numeric(422));
    let m = Message::parse(":Guest1!u@h JOIN #chan\r\n").unwrap();
    assert_eq!(m.command(), &Command::Join);
    let m = Message::parse("PONG :token\r\n").unwrap();
    assert_eq!(m.command(), &Command::Pong);
}

#[test]
fn parse_errors_carry_the_offending_text() {
    let no_crlf = Message::parse("PING :token");
    assert_eq!(no_crlf.unwrap_err().text(), "PING :token");
    let empty = Message::parse("");
    assert!(empty.is_err());
    let bare_crlf = Message::parse("\r\n");
    assert!(bare_crlf.is_err());
    let tags_without_space = Message::parse("@id=123\r\n");
    assert_eq!(tags_without_space.unwrap_err().text(), "@id=123\r\n");
    let source_without_space = Message::parse(":irc.example.com\r\n");
    assert!(source_without_space.is_err());
}

#[test]
fn parse_empty_tag_segment_means_no_tags() {
    let m = Message::parse("@ PING :token\r\n").unwrap();
    assert_eq!(m.tags(), None);
    assert_eq!(m.command(), &Command::Ping);
    assert_eq!(m.get_param(0), Some(&Param::new("token")));
}

#[test]
fn parse_tag_value_splits_on_first_equals() {
    let m = Message::parse("@key=a=b PING :x\r\n").unwrap();
    assert_eq!(m.tags(), Some(&vec![tag("key", "a=b")]));
}

#[test]
fn parse_source_with_bang_but_no_at_is_bare_nick() {
    let raw = chars(":a!b ");
    let (src, _) = source(&raw, 0, raw.len()).unwrap();
    assert_eq!(src, Some(Source::new("a!b".to_string())));
}

#[test]
fn parse_bare_command_has_no_params() {
    let m = Message::parse("PING\r\n").unwrap();
    assert_eq!(m.command(), &Command::Ping);
    assert_eq!(m.get_param(0), None);
}

#[test]
fn priv_msg_carries_no_source() {
    let m = Message::priv_msg("someone".to_string(), "hello there".to_string());
    assert_eq!(m.command(), &Command::PrivMsg);
    assert_eq!(m.source(), None);
    assert_eq!(m.tags(), None);
    assert_eq!(m.get_param(0), Some(&Param::new("hello there")));
    assert_eq!(m.encode(), "PRIVMSG hello there\r\n");
}

#[test]
fn pong_encodes_the_token() {
    let m = Message::pong(Param::new("irc.example.com"));
    assert_eq!(m.encode(), "PONG irc.example.com\r\n");
}

#[test]
fn source_compares_against_bare_nick_by_nick_only() {
    let full = Source::new_with_user_and_host(
        "Guest1".to_string(),
        "textual".to_string(),
        "localhost".to_string(),
    );
    assert!(full.nick_is("Guest1"));
    assert!(!full.nick_is("textual"));
    let bare = Source::new("Guest1".to_string());
    assert!(bare.nick_is("Guest1"));
}

#[test]
fn parse_stops_at_the_first_crlf() {
    let m = Message::parse("PING :a\r\nPONG :b\r\n").unwrap();
    assert_eq!(m.command(), &Command::Ping);
    assert_eq!(m.get_param(0), Some(&Param::new("a")));
    assert_eq!(m.get_param(1), None);
}

#[test]
fn colon_inside_a_token_does_not_start_the_trailing_param() {
    let m = Message::parse("PRIVMSG #chan hello:world\r\n").unwrap();
    assert_eq!(m.get_param(0), Some(&Param::new("#chan")));
    assert_eq!(m.get_param(1), Some(&Param::new("hello:world")));
}

#[test]
fn command_from_token_maps_verbs_numerics_and_unknowns() {
    assert_eq!(Command::from_token("NOTICE"), Command::Notice);
    assert_eq!(Command::from_token("MOTD"), Command::MessageOfTheDay);
    assert_eq!(Command::from_token("001"), Command::RplWelcome);
    assert_eq!(Command::from_token("372"), Command::RplMotd);
    assert_eq!(Command::from_token("005"), Command::Numeric(5));
    assert_eq!(Command::from_token("421"), Command::Numeric(421));
    assert_eq!(Command::from_token("WHOIS"), Command::Unknown("WHOIS".to_string()));
    assert_eq!(Command::from_token("0051"), Command::Unknown("0051".to_string()));
    assert_eq!(Command::from_token("05"), Command::Unknown("05".to_string()));
    assert_eq!(Command::from_token("0x5"), Command::Unknown("0x5".to_string()));
}

#[test]
fn test_trailing_param() {
    let raw = chars(":*** Looking up your hostname...\r\n");
    let actual = params(&raw, 0, raw.len() - 2).unwrap();
    let expected = vec!["*** Looking up your hostname...".to_string()];
    assert_eq!(actual.to_vec(), expected);
}

#[test]
fn unlisted_numeric_round_trips_through_its_digits() {
    let m = Message::parse(":irc.example.com 005 Guest1\r\n").unwrap();
    assert_eq!(m.command(), &Command::Numeric(5));
    assert_eq!(Command::Numeric(5).text(), "005");
}

#[test]
fn source_text_renders_the_triple_or_the_bare_nick() {
    let full = Source::new_with_user_and_host(
        "Guest1".to_string(),
        "textual".to_string(),
        "localhost".to_string(),
    );
    assert_eq!(full.text(), "Guest1!textual@localhost");
    let bare = Source::new("irc.example.com".to_string());
    assert_eq!(bare.text(), "irc.example.com");
}
