//! Parsing the console's "list players" reply.
//!
//! The reply is line-based text such as
//! `"There are 2 of a max of 8 players online: Ada, Bo"`. The names are
//! whatever follows the first `:`, split on commas, trimmed, with empty
//! tokens dropped. A reply without a `:` is malformed and fails only the
//! affected server's tick.

use crate::error::AppError;
use vstd::prelude::*;
use vstd::string::StrSliceExecFns;

verus! {

/// The whitespace trimmed from the ends of a player name.
pub open spec fn is_space(c: char) -> bool {
    c == ' ' || c == '\t' || c == '\n' || c == '\r'
}

/// The index of the first occurrence of `c`, if any.
pub open spec fn find_char(s: Seq<char>, c: char) -> Option<int>
    decreases s.len(),
{
    if s.len() == 0 {
        None
    } else if s[0] == c {
        Some(0int)
    } else {
        match find_char(s.drop_first(), c) {
            Some(i) => Some(i + 1),
            None => None,
        }
    }
}

pub proof fn lemma_find_char(s: Seq<char>, c: char)
    ensures
        match find_char(s, c) {
            Some(i) => 0 <= i < s.len() && s[i] == c && (forall|k: int| 0 <= k < i ==> s[k] != c),
            None => forall|k: int| 0 <= k < s.len() ==> s[k] != c,
        },
    decreases s.len(),
{
    broadcast use vstd::seq_lib::group_seq_properties;

    if s.len() > 0 && s[0] != c {
        lemma_find_char(s.drop_first(), c);
        assert forall|k: int| 1 <= k < s.len() implies s[k] == s.drop_first()[k - 1] by {}
    }
}

pub open spec fn trim_start_spec(s: Seq<char>) -> Seq<char>
    decreases s.len(),
{
    if s.len() > 0 && is_space(s[0]) {
        trim_start_spec(s.drop_first())
    } else {
        s
    }
}

pub open spec fn trim_end_spec(s: Seq<char>) -> Seq<char>
    decreases s.len(),
{
    if s.len() > 0 && is_space(s.last()) {
        trim_end_spec(s.drop_last())
    } else {
        s
    }
}

/// A token with the whitespace removed from both ends.
pub open spec fn trim_spec(s: Seq<char>) -> Seq<char> {
    trim_end_spec(trim_start_spec(s))
}

/// The segments between commas, in order. Splitting never loses characters:
/// a string without commas is one segment, and each comma opens a new one.
pub open spec fn split_commas(s: Seq<char>) -> Seq<Seq<char>>
    decreases s.len(),
{
    if s.len() == 0 {
        seq![Seq::<char>::empty()]
    } else if s[0] == ',' {
        seq![Seq::<char>::empty()] + split_commas(s.drop_first())
    } else {
        let rest = split_commas(s.drop_first());
        seq![seq![s[0]] + rest[0]] + rest.drop_first()
    }
}

pub proof fn lemma_split_commas_nonempty(s: Seq<char>)
    ensures
        split_commas(s).len() >= 1,
    decreases s.len(),
{
    if s.len() > 0 {
        lemma_split_commas_nonempty(s.drop_first());
    }
}

/// `split_commas` cuts at the first comma: everything before it is the first
/// segment and the rest splits on its own.
pub proof fn lemma_split_commas_first(s: Seq<char>)
    ensures
        match find_char(s, ',') {
            Some(i) => split_commas(s) == seq![s.take(i)] + split_commas(s.skip(i + 1)),
            None => split_commas(s) == seq![s],
        },
    decreases s.len(),
{
    lemma_find_char(s, ',');
    match find_char(s, ',') {
        Some(i) => {
            if i == 0 {
                assert(s.take(0) =~= Seq::<char>::empty());
                assert(s.skip(1) =~= s.drop_first());
                assert(split_commas(s) =~= seq![s.take(0)] + split_commas(s.skip(1)));
            } else {
                let rest = s.drop_first();
                lemma_split_commas_first(rest);
                lemma_split_commas_nonempty(rest);
                assert(find_char(s, ',') == match find_char(rest, ',') {
                    Some(j) => Some(j + 1),
                    None => None::<int>,
                });
                let j = i - 1;
                assert(find_char(rest, ',') == Some(j));
                let inner = split_commas(rest);
                assert(inner == seq![rest.take(j)] + split_commas(rest.skip(j + 1)));
                assert(seq![s[0]] + inner[0] =~= s.take(i));
                assert(rest.skip(j + 1) =~= s.skip(i + 1));
                assert(inner.drop_first() =~= split_commas(s.skip(i + 1)));
                assert(split_commas(s) =~= seq![s.take(i)] + split_commas(s.skip(i + 1)));
            }
        },
        None => {
            if s.len() > 0 {
                let rest = s.drop_first();
                lemma_split_commas_first(rest);
                assert(find_char(rest, ',') is None);
                assert(split_commas(rest) == seq![rest]);
                assert(seq![s[0]] + rest =~= s);
                assert(split_commas(s) =~= seq![s]);
            } else {
                assert(s =~= Seq::<char>::empty());
                assert(split_commas(s) =~= seq![s]);
            }
        },
    }
}

/// The player names in a comma-separated list: each segment trimmed, empty
/// tokens dropped.
pub open spec fn player_tokens(s: Seq<char>) -> Seq<Seq<char>> {
    split_commas(s).map_values(|t: Seq<char>| trim_spec(t)).filter(|t: Seq<char>| t.len() > 0)
}

/// What a console reply means: the names after the first `:`, or nothing when
/// the reply is malformed.
pub open spec fn parse_player_list_spec(reply: Seq<char>) -> Option<Seq<Seq<char>>> {
    match find_char(reply, ':') {
        Some(i) => Some(player_tokens(reply.skip(i + 1))),
        None => None,
    }
}

fn is_space_char(c: char) -> (space: bool)
    ensures
        space == is_space(c),
{
    c == ' ' || c == '\t' || c == '\n' || c == '\r'
}

fn find_in_str(s: &str, c: char) -> (position: Option<usize>)
    ensures
        match position {
            Some(i) => find_char(s@, c) == Some(i as int),
            None => find_char(s@, c) is None,
        },
{
    proof {
        lemma_find_char(s@, c);
    }
    let len = s.unicode_len();
    let mut i: usize = 0;
    while i < len
        invariant
            i <= len,
            len == s@.len(),
            forall|k: int| 0 <= k < i ==> s@[k] != c,
        decreases len - i,
    {
        if s.get_char(i) == c {
            proof {
                lemma_find_char(s@, c);
                match find_char(s@, c) {
                    Some(j) => {
                        assert(j == i);
                    },
                    None => {
                        assert(s@[i as int] != c);
                    },
                }
            }
            return Some(i);
        }
        i += 1;
    }
    None
}

proof fn lemma_trim_start_skip(s: Seq<char>, a: int)
    requires
        0 <= a <= s.len(),
        forall|k: int| 0 <= k < a ==> is_space(#[trigger] s[k]),
        a == s.len() || !is_space(s[a]),
    ensures
        trim_start_spec(s) == s.skip(a),
    decreases a,
{
    if a == 0 {
        assert(s.skip(0) =~= s);
    } else {
        assert(is_space(s[0]));
        let rest = s.drop_first();
        lemma_trim_start_skip(rest, a - 1);
        assert(rest.skip(a - 1) =~= s.skip(a));
    }
}

proof fn lemma_trim_end_take(s: Seq<char>, b: int)
    requires
        0 <= b <= s.len(),
        forall|k: int| b <= k < s.len() ==> is_space(#[trigger] s[k]),
        b == 0 || !is_space(s[b - 1]),
    ensures
        trim_end_spec(s) == s.take(b),
    decreases s.len() - b,
{
    if b == s.len() {
        assert(s.take(b) =~= s);
    } else {
        assert(is_space(s.last()));
        let rest = s.drop_last();
        lemma_trim_end_take(rest, b);
        assert(rest.take(b) =~= s.take(b));
    }
}

/// Remove the whitespace from both ends of a token.
fn trim_str(s: &str) -> (trimmed: String)
    ensures
        trimmed@ == trim_spec(s@),
{
    let len = s.unicode_len();
    let mut a: usize = 0;
    while a < len && is_space_char(s.get_char(a))
        invariant
            a <= len,
            len == s@.len(),
            forall|k: int| 0 <= k < a ==> is_space(#[trigger] s@[k]),
        decreases len - a,
    {
        a += 1;
    }
    let mut b: usize = len;
    while b > a && is_space_char(s.get_char(b - 1))
        invariant
            a <= b <= len,
            len == s@.len(),
            forall|k: int| b <= k < len ==> is_space(#[trigger] s@[k]),
        decreases b,
    {
        b -= 1;
    }
    proof {
        lemma_trim_start_skip(s@, a as int);
        let u = s@.skip(a as int);
        lemma_trim_end_take(u, b - a);
        assert(u.take(b - a) =~= s@.subrange(a as int, b as int));
    }
    let token = s.substring_char(a, b);
    token.to_owned()
}

/// Parse the console's "list players" reply: the names after the first `:`,
/// comma-separated, trimmed, empty tokens dropped. A reply without a `:` is
/// malformed and yields `AppError::Parse`.
pub fn parse_player_list(reply: &str) -> (players: Result<Vec<String>, AppError>)
    ensures
        match players {
            Ok(list) => parse_player_list_spec(reply@) == Some(list.deep_view()),
            Err(e) => parse_player_list_spec(reply@) is None && e == AppError::Parse,
        },
{
    let colon = match find_in_str(reply, ':') {
        Some(i) => i,
        None => {
            return Err(AppError::Parse);
        },
    };
    proof {
        lemma_find_char(reply@, ':');
    }
    let len = reply.unicode_len();
    let rest = reply.substring_char(colon + 1, len);
    let ghost names_text = reply@.skip(colon + 1);
    proof {
        assert(rest@ =~= names_text);
    }

    let ghost trim_fn = |t: Seq<char>| trim_spec(t);
    let ghost nonempty = |t: Seq<char>| t.len() > 0;
    let mut players: Vec<String> = Vec::new();
    let ghost mut processed = Seq::<Seq<char>>::empty();
    let mut cur: &str = rest;
    let mut cur_len = cur.unicode_len();
    let mut done = false;
    while !done
        invariant
            cur_len == cur@.len(),
            !done ==> split_commas(names_text) == processed + split_commas(cur@),
            done ==> split_commas(names_text) == processed,
            players.deep_view() == processed.map_values(trim_fn).filter(nonempty),
            forall|t: Seq<char>| #[trigger] trim_fn(t) == trim_spec(t),
            forall|t: Seq<char>| #[trigger] nonempty(t) == (t.len() > 0),
        decreases cur@.len(), (if done {
            0int
        } else {
            1int
        }),
    {
        proof {
            lemma_split_commas_first(cur@);
            lemma_find_char(cur@, ',');
        }
        let ghost pre = players.deep_view();
        let mut segment_end = cur_len;
        match find_in_str(cur, ',') {
            Some(i) => {
                segment_end = i;
            },
            None => {
                done = true;
            },
        };
        let ghost segment = if done {
            cur@
        } else {
            cur@.take(segment_end as int)
        };
        let token = trim_str(cur.substring_char(0, segment_end));
        proof {
            assert(cur@.subrange(0, segment_end as int) =~= segment);
        }
        if !token.as_str().is_empty() {
            players.push(token);
        }
        proof {
            let mapped = seq![segment].map_values(trim_fn);
            assert(mapped =~= seq![trim_spec(segment)]);
            reveal_with_fuel(Seq::filter, 2);
            assert(mapped.drop_last() =~= Seq::<Seq<char>>::empty());
            Seq::filter_distributes_over_add(processed.map_values(trim_fn), mapped, nonempty);
            assert((processed + seq![segment]).map_values(trim_fn) =~= processed.map_values(
                trim_fn,
            ) + mapped);
            if trim_spec(segment).len() > 0 {
                assert(mapped.filter(nonempty) =~= seq![trim_spec(segment)]);
                assert(players.deep_view() =~= pre.push(trim_spec(segment)));
            } else {
                assert(mapped.filter(nonempty) =~= Seq::<Seq<char>>::empty());
            }
            assert((processed + seq![segment]).map_values(trim_fn).filter(nonempty)
                =~= players.deep_view());
        }
        if done {
            proof {
                assert(split_commas(cur@) == seq![cur@]);
                assert(processed + split_commas(cur@) =~= processed + seq![segment]);
                processed = processed + seq![segment];
            }
        } else {
            proof {
                assert(split_commas(cur@) == seq![segment] + split_commas(
                    cur@.skip(segment_end + 1),
                ));
                assert(processed + split_commas(cur@) =~= (processed + seq![segment])
                    + split_commas(cur@.skip(segment_end + 1)));
                processed = processed + seq![segment];
            }
            let next = cur.substring_char(segment_end + 1, cur_len);
            proof {
                assert(next@ =~= cur@.skip(segment_end + 1));
            }
            cur = next;
            cur_len = cur.unicode_len();
        }
    }
    proof {
        assert(players.deep_view() == player_tokens(names_text));
    }
    Ok(players)
}

} // verus!
