//! The message grammar, stage by stage. A wire line is
//! `[@tags ][:source ]<command>[ <params>]\r\n`; each stage consumes its
//! prefix together with the separator that follows it. Every stage has a
//! specification function over character sequences and a verified
//! executable counterpart over `Vec<char>` with positions; `end` bounds
//! the scan (for a full line, the start of the terminating CRLF).
use vstd::prelude::*;

use crate::chars::{
    chars_to_string, copy_range, find_char, find_in, lemma_find_in, skip_spaces, skip_spaces_exec,
};
use crate::command::{spec_command_of, Command, CommandV};
use crate::param::{Param, Params};
use crate::source::{Source, SourceV};

verus! {

/// One metadatum from the tag prefix. An empty value is valid and distinct
/// from the pair being absent.
#[derive(Debug, PartialEq)]
pub struct Tag {
    pub key: String,
    pub value: String,
}

/// Mathematical model of [`Tag`].
pub ghost struct TagV {
    pub key: Seq<char>,
    pub value: Seq<char>,
}

impl View for Tag {
    type V = TagV;

    open spec fn view(&self) -> TagV {
        TagV { key: self.key@, value: self.value@ }
    }
}

/// The tag pair spelled by `s[a..b]`: key up to the first `=`, value after
/// it; a piece with no `=` is a key with the empty value.
pub open spec fn spec_tag_pair(s: Seq<char>, a: int, b: int) -> TagV
    recommends
        0 <= a <= b <= s.len(),
{
    let e = find_in(s, a, b, '=');
    if e == b {
        TagV { key: s.subrange(a, b), value: Seq::empty() }
    } else {
        TagV { key: s.subrange(a, e), value: s.subrange(e + 1, b) }
    }
}

/// A piece with no `=` anywhere yields the whole piece as the key and the
/// empty string as the value: the pair is present, never absent.
pub proof fn lemma_tag_pair_without_equals(s: Seq<char>, a: int, b: int)
    requires
        0 <= a <= b <= s.len(),
        forall|j: int| a <= j < b ==> s[j] != '=',
    ensures
        spec_tag_pair(s, a, b) == (TagV { key: s.subrange(a, b), value: Seq::<char>::empty() }),
{
    lemma_find_in(s, a, b, '=');
    let e = find_in(s, a, b, '=');
    if e < b {
        assert(s[e] == '=');
    }
}

/// The tag pairs of the semicolon-separated segment `s[a..b]`, in order.
pub open spec fn spec_tag_list(s: Seq<char>, a: int, b: int) -> Seq<TagV>
    decreases b - a,
        when 0 <= a <= b <= s.len()
        via spec_tag_list_dec
{
    let e = find_in(s, a, b, ';');
    if e == b {
        seq![spec_tag_pair(s, a, b)]
    } else {
        seq![spec_tag_pair(s, a, e)] + spec_tag_list(s, e + 1, b)
    }
}

#[via_fn]
proof fn spec_tag_list_dec(s: Seq<char>, a: int, b: int) {
    lemma_find_in(s, a, b, ';');
}

/// The tag stage at `pos`. `None` is failure: a tag prefix whose segment
/// never ends in a space before `end`. Otherwise the result holds the
/// parsed pairs (absent when there is no `@` prefix, or when the segment
/// is empty and so parses to zero pairs) and the position after the
/// consumed space.
pub open spec fn spec_tags(s: Seq<char>, pos: int, end: int) -> Option<
    (Option<Seq<TagV>>, int),
>
    recommends
        0 <= pos <= end <= s.len(),
{
    if pos >= end || s[pos] != '@' {
        Some((None, pos))
    } else {
        let sp = find_in(s, pos, end, ' ');
        if sp == end {
            None
        } else if sp == pos + 1 {
            Some((None, sp + 1))
        } else {
            Some((Some(spec_tag_list(s, pos + 1, sp)), sp + 1))
        }
    }
}

/// The `nick!user@host` decomposition of the source token `s[a..b]`:
/// split on the first `!` and then the first `@` after it; if either is
/// missing the whole token is the bare nick.
pub open spec fn spec_decompose(s: Seq<char>, a: int, b: int) -> SourceV
    recommends
        0 <= a <= b <= s.len(),
{
    let bang = find_in(s, a, b, '!');
    if bang == b {
        SourceV { nick: s.subrange(a, b), user: None, host: None }
    } else {
        let at = find_in(s, bang + 1, b, '@');
        if at == b {
            SourceV { nick: s.subrange(a, b), user: None, host: None }
        } else {
            SourceV {
                nick: s.subrange(a, bang),
                user: Some(s.subrange(bang + 1, at)),
                host: Some(s.subrange(at + 1, b)),
            }
        }
    }
}

/// The source stage at `pos`. `None` is failure: a `:` prefix whose token
/// never ends in a space before `end`. Otherwise the result holds the
/// source (absent when there is no `:` prefix) and the position after the
/// token's trailing run of spaces.
pub open spec fn spec_source(s: Seq<char>, pos: int, end: int) -> Option<(Option<SourceV>, int)>
    recommends
        0 <= pos <= end <= s.len(),
{
    if pos >= end || s[pos] != ':' {
        Some((None, pos))
    } else {
        let sp = find_in(s, pos, end, ' ');
        if sp == end {
            None
        } else {
            Some((Some(spec_decompose(s, pos + 1, sp)), skip_spaces(s, sp, end)))
        }
    }
}

/// The command stage at `pos`: the run up to the next space or to `end`.
/// `None` is failure: an empty run, so no command token can be found.
/// Otherwise the result holds the command and the position after the
/// token and its separating space, if any.
pub open spec fn spec_command_stage(s: Seq<char>, pos: int, end: int) -> Option<(CommandV, int)>
    recommends
        0 <= pos <= end <= s.len(),
{
    let e = find_in(s, pos, end, ' ');
    if e == pos {
        None
    } else {
        Some((spec_command_of(s.subrange(pos, e)), if e == end { end } else { e + 1 }))
    }
}

/// The parameter tokens of `s[pos..end]`, in order. Runs of spaces between
/// tokens are collapsed; a token starting with `:` is the trailing
/// parameter, which extends to `end` and is always last.
pub open spec fn spec_param_list(s: Seq<char>, pos: int, end: int) -> Seq<Seq<char>>
    decreases end - pos,
        when 0 <= pos <= end <= s.len()
        via spec_param_list_dec
{
    if pos >= end {
        seq![]
    } else if s[pos] == ' ' {
        spec_param_list(s, pos + 1, end)
    } else if s[pos] == ':' {
        seq![s.subrange(pos + 1, end)]
    } else {
        let e = find_in(s, pos, end, ' ');
        seq![s.subrange(pos, e)] + spec_param_list(s, e, end)
    }
}

#[via_fn]
proof fn spec_param_list_dec(s: Seq<char>, pos: int, end: int) {
    lemma_find_in(s, pos, end, ' ');
}

/// The parameter stage: the parsed list, or absent when there are no
/// tokens at all (distinct from an empty trailing parameter).
pub open spec fn spec_params(s: Seq<char>, pos: int, end: int) -> Option<Seq<Seq<char>>>
    recommends
        0 <= pos <= end <= s.len(),
{
    let l = spec_param_list(s, pos, end);
    if l.len() == 0 {
        None
    } else {
        Some(l)
    }
}

/// The view of a parsed tag vector.
pub open spec fn tags_view(v: Seq<Tag>) -> Seq<TagV> {
    v.map_values(|t: Tag| t@)
}

/// Parses the tag pair spelled by `s[a..b]`.
pub fn tag_pair(s: &Vec<char>, a: usize, b: usize) -> (r: Tag)
    requires
        a <= b <= s@.len(),
    ensures
        r@ == spec_tag_pair(s@, a as int, b as int),
{
    let e = find_char(s, a, b, '=');
    if e == b {
        let key = copy_range(s, a, b);
        Tag { key: chars_to_string(&key), value: String::new() }
    } else {
        let key = copy_range(s, a, e);
        let value = copy_range(s, e + 1, b);
        Tag { key: chars_to_string(&key), value: chars_to_string(&value) }
    }
}

/// Parses the semicolon-separated tag segment `s[a..b]`.
fn tag_list(s: &Vec<char>, a: usize, b: usize) -> (r: Vec<Tag>)
    requires
        a <= b <= s@.len(),
    ensures
        tags_view(r@) == spec_tag_list(s@, a as int, b as int),
{
    let mut r: Vec<Tag> = Vec::new();
    let mut cur: usize = a;
    #[verifier::loop_isolation(true)]
    loop
        invariant_except_break
            a <= cur <= b <= s@.len(),
            spec_tag_list(s@, a as int, b as int) == tags_view(r@) + spec_tag_list(
                s@,
                cur as int,
                b as int,
            ),
        ensures
            tags_view(r@) == spec_tag_list(s@, a as int, b as int),
        decreases b - cur,
    {
        let ghost prev = r@;
        let e = find_char(s, cur, b, ';');
        let t = tag_pair(s, cur, e);
        let ghost tv = t@;
        r.push(t);
        proof {
            assert(tags_view(r@) =~= tags_view(prev).push(tv));
        }
        if e == b {
            proof {
                assert(tags_view(prev) + spec_tag_list(s@, cur as int, b as int) =~= tags_view(
                    r@,
                ));
            }
            break ;
        }
        proof {
            assert(tags_view(prev) + (seq![tv] + spec_tag_list(s@, e + 1 as int, b as int))
                =~= tags_view(r@) + spec_tag_list(s@, e + 1 as int, b as int));
        }
        cur = e + 1;
    }
    r
}

/// Runs the tag stage of the grammar at `pos`, bounded by `end`.
pub fn tags(s: &Vec<char>, pos: usize, end: usize) -> (r: Option<(Option<Vec<Tag>>, usize)>)
    requires
        pos <= end <= s@.len(),
    ensures
        ({
            let sr = spec_tags(s@, pos as int, end as int);
            match r {
                None => sr is None,
                Some((tg, p)) => sr matches Some((stg, sp)) && p == sp && (match tg {
                    None => stg is None,
                    Some(v) => stg == Some(tags_view(v@)),
                }),
            }
        }),
        r matches Some(x) ==> pos <= x.1 <= end,
{
    if pos >= end || s[pos] != '@' {
        return Some((None, pos));
    }
    let sp = find_char(s, pos, end, ' ');
    if sp == end {
        return None;
    }
    if sp == pos + 1 {
        return Some((None, sp + 1));
    }
    let list = tag_list(s, pos + 1, sp);
    Some((Some(list), sp + 1))
}

/// Decomposes the source token `s[a..b]` into nick, user and host.
pub fn decompose(s: &Vec<char>, a: usize, b: usize) -> (r: Source)
    requires
        a <= b <= s@.len(),
    ensures
        r@ == spec_decompose(s@, a as int, b as int),
        r@.wf(),
{
    let bang = find_char(s, a, b, '!');
    if bang == b {
        let nick = copy_range(s, a, b);
        return Source::new(chars_to_string(&nick));
    }
    let at = find_char(s, bang + 1, b, '@');
    if at == b {
        let nick = copy_range(s, a, b);
        return Source::new(chars_to_string(&nick));
    }
    let nick = copy_range(s, a, bang);
    let user = copy_range(s, bang + 1, at);
    let host = copy_range(s, at + 1, b);
    Source::new_with_user_and_host(
        chars_to_string(&nick),
        chars_to_string(&user),
        chars_to_string(&host),
    )
}

/// Runs the source stage of the grammar at `pos`, bounded by `end`.
pub fn source(s: &Vec<char>, pos: usize, end: usize) -> (r: Option<(Option<Source>, usize)>)
    requires
        pos <= end <= s@.len(),
    ensures
        ({
            let sr = spec_source(s@, pos as int, end as int);
            match r {
                None => sr is None,
                Some((src, p)) => sr matches Some((ssrc, sp)) && p == sp && (match src {
                    None => ssrc is None,
                    Some(v) => ssrc == Some(v@) && v@.wf(),
                }),
            }
        }),
        r matches Some(x) ==> pos <= x.1 <= end,
{
    if pos >= end || s[pos] != ':' {
        return Some((None, pos));
    }
    let sp = find_char(s, pos, end, ' ');
    if sp == end {
        return None;
    }
    let src = decompose(s, pos + 1, sp);
    let p = skip_spaces_exec(s, sp, end);
    Some((Some(src), p))
}

/// Runs the command stage of the grammar at `pos`, bounded by `end`.
pub fn command(s: &Vec<char>, pos: usize, end: usize) -> (r: Option<(Command, usize)>)
    requires
        pos <= end <= s@.len(),
    ensures
        ({
            let sr = spec_command_stage(s@, pos as int, end as int);
            match r {
                None => sr is None,
                Some((c, p)) => sr matches Some((sc, sp)) && c@ == sc && p == sp,
            }
        }),
        r matches Some(x) ==> pos <= x.1 <= end,
{
    let e = find_char(s, pos, end, ' ');
    if e == pos {
        return None;
    }
    let tok = copy_range(s, pos, e);
    let c = Command::from_chars(&tok);
    Some((c, if e == end { end } else { e + 1 }))
}

/// Runs the parameter stage of the grammar at `pos`, bounded by `end`.
pub fn params(s: &Vec<char>, pos: usize, end: usize) -> (r: Option<Params>)
    requires
        pos <= end <= s@.len(),
    ensures
        ({
            let sr = spec_params(s@, pos as int, end as int);
            match r {
                None => sr is None,
                Some(ps) => sr == Some(ps@),
            }
        }),
{
    let mut ps = Params::new();
    let mut cur: usize = pos;
    #[verifier::loop_isolation(true)]
    loop
        invariant_except_break
            pos <= cur <= end <= s@.len(),
            spec_param_list(s@, pos as int, end as int) == ps@ + spec_param_list(
                s@,
                cur as int,
                end as int,
            ),
        ensures
            ps@ == spec_param_list(s@, pos as int, end as int),
        decreases end - cur,
    {
        let ghost prev = ps@;
        if cur >= end {
            proof {
                assert(prev + spec_param_list(s@, cur as int, end as int) =~= prev);
            }
            break ;
        }
        let c = s[cur];
        if c == ' ' {
            cur = cur + 1;
        } else if c == ':' {
            let text = copy_range(s, cur + 1, end);
            ps.add(Param::from_string(chars_to_string(&text)));
            proof {
                assert(prev + spec_param_list(s@, cur as int, end as int) =~= ps@);
            }
            break ;
        } else {
            let e = find_char(s, cur, end, ' ');
            let text = copy_range(s, cur, e);
            ps.add(Param::from_string(chars_to_string(&text)));
            proof {
                assert(prev + (seq![s@.subrange(cur as int, e as int)] + spec_param_list(
                    s@,
                    e as int,
                    end as int,
                )) =~= ps@ + spec_param_list(s@, e as int, end as int));
            }
            cur = e;
        }
    }
    if ps.len() == 0 {
        None
    } else {
        Some(ps)
    }
}

} // verus!
