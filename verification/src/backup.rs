//! Backup scheduling: when a cycle runs, how the archive is named, which
//! stale archives are pruned, and the quiesce protocol around the archiver.
//!
//! The archive filename embeds the server id and the cycle's UTC timestamp
//! (seconds since the epoch, in decimal), so pruning can re-parse the time
//! from the name alone.

use crate::records::GameServer;
use vstd::prelude::*;
use vstd::seq_lib::group_seq_properties;
use vstd::string::{StrSliceExecFns, StringExecFns};

verus! {

/// The full run condition for a backup cycle: it must be due, and either
/// players are currently online or the roster changed at some point since the
/// last backup (covering sessions that ended before the backup fired).
pub fn backup_should_run(
    now: u64,
    last_backup_time: u64,
    interval: u64,
    roster_len: usize,
    last_roster_change_time: u64,
) -> (run: bool)
    ensures
        run == (last_backup_time + interval <= now && (roster_len > 0 || last_backup_time
            <= last_roster_change_time)),
{
    let due = now >= last_backup_time && now - last_backup_time >= interval;
    due && (roster_len > 0 || last_backup_time <= last_roster_change_time)
}

// ---------------------------------------------------------------------------
// Decimal timestamps in archive names.
// ---------------------------------------------------------------------------
pub open spec fn is_digit(c: char) -> bool {
    c == '0' || c == '1' || c == '2' || c == '3' || c == '4' || c == '5' || c == '6' || c == '7'
        || c == '8' || c == '9'
}

pub open spec fn digit_char(d: nat) -> char {
    if d == 0 {
        '0'
    } else if d == 1 {
        '1'
    } else if d == 2 {
        '2'
    } else if d == 3 {
        '3'
    } else if d == 4 {
        '4'
    } else if d == 5 {
        '5'
    } else if d == 6 {
        '6'
    } else if d == 7 {
        '7'
    } else if d == 8 {
        '8'
    } else {
        '9'
    }
}

pub open spec fn digit_val(c: char) -> nat {
    if c == '0' {
        0
    } else if c == '1' {
        1
    } else if c == '2' {
        2
    } else if c == '3' {
        3
    } else if c == '4' {
        4
    } else if c == '5' {
        5
    } else if c == '6' {
        6
    } else if c == '7' {
        7
    } else if c == '8' {
        8
    } else {
        9
    }
}

/// The decimal digits of `n`, most significant first.
pub open spec fn dec_digits(n: nat) -> Seq<char>
    decreases n,
{
    if n < 10 {
        seq![digit_char(n)]
    } else {
        dec_digits(n / 10) + seq![digit_char(n % 10)]
    }
}

/// The value of a decimal digit string.
pub open spec fn dec_val(s: Seq<char>) -> nat
    decreases s.len(),
{
    if s.len() == 0 {
        0
    } else {
        dec_val(s.drop_last()) * 10 + digit_val(s.last())
    }
}

pub open spec fn all_digits(s: Seq<char>) -> bool {
    forall|k: int| 0 <= k < s.len() ==> is_digit(#[trigger] s[k])
}

pub proof fn lemma_dec_digits_shape(n: nat)
    ensures
        dec_digits(n).len() >= 1,
        all_digits(dec_digits(n)),
    decreases n,
{
    if n >= 10 {
        lemma_dec_digits_shape(n / 10);
        assert forall|k: int| 0 <= k < dec_digits(n).len() implies is_digit(
            #[trigger] dec_digits(n)[k],
        ) by {
            if k < dec_digits(n / 10).len() {
                assert(dec_digits(n)[k] == dec_digits(n / 10)[k]);
            } else {
                assert(dec_digits(n)[k] == digit_char(n % 10));
            }
        }
    }
}

/// Reading the digits of `n` back gives `n`.
pub proof fn lemma_dec_roundtrip(n: nat)
    ensures
        dec_val(dec_digits(n)) == n,
    decreases n,
{
    assert(dec_val(Seq::<char>::empty()) == 0);
    if n < 10 {
        assert(dec_digits(n).drop_last() =~= Seq::<char>::empty());
        assert(dec_val(dec_digits(n)) == dec_val(Seq::<char>::empty()) * 10 + digit_val(
            digit_char(n),
        ));
    } else {
        lemma_dec_roundtrip(n / 10);
        let s = dec_digits(n);
        assert(s.drop_last() =~= dec_digits(n / 10));
        assert(s.last() == digit_char(n % 10));
        assert(dec_val(s) == dec_val(dec_digits(n / 10)) * 10 + digit_val(digit_char(n % 10)));
        assert(digit_val(digit_char(n % 10)) == n % 10);
        assert((n / 10) * 10 + n % 10 == n) by {
            vstd::arithmetic::div_mod::lemma_fundamental_div_mod(n as int, 10);
        }
    }
}

fn digit_str(d: u64) -> (s: &'static str)
    requires
        d < 10,
    ensures
        s@ == seq![digit_char(d as nat)],
{
    proof {
        reveal_strlit("0");
        reveal_strlit("1");
        reveal_strlit("2");
        reveal_strlit("3");
        reveal_strlit("4");
        reveal_strlit("5");
        reveal_strlit("6");
        reveal_strlit("7");
        reveal_strlit("8");
        reveal_strlit("9");
    }
    let s = if d == 0 {
        "0"
    } else if d == 1 {
        "1"
    } else if d == 2 {
        "2"
    } else if d == 3 {
        "3"
    } else if d == 4 {
        "4"
    } else if d == 5 {
        "5"
    } else if d == 6 {
        "6"
    } else if d == 7 {
        "7"
    } else if d == 8 {
        "8"
    } else {
        "9"
    };
    proof {
        assert(s@ =~= seq![digit_char(d as nat)]);
    }
    s
}

fn digit_of_char(c: char) -> (d: Option<u64>)
    ensures
        match d {
            Some(v) => is_digit(c) && v == digit_val(c) && v < 10,
            None => !is_digit(c),
        },
{
    if c == '0' {
        Some(0)
    } else if c == '1' {
        Some(1)
    } else if c == '2' {
        Some(2)
    } else if c == '3' {
        Some(3)
    } else if c == '4' {
        Some(4)
    } else if c == '5' {
        Some(5)
    } else if c == '6' {
        Some(6)
    } else if c == '7' {
        Some(7)
    } else if c == '8' {
        Some(8)
    } else if c == '9' {
        Some(9)
    } else {
        None
    }
}

/// Write `n` in decimal.
pub fn format_u64(n: u64) -> (s: String)
    ensures
        s@ == dec_digits(n as nat),
    decreases n,
{
    if n < 10 {
        digit_str(n).to_owned()
    } else {
        let mut s = format_u64(n / 10);
        s.append(digit_str(n % 10));
        proof {
            assert(s@ =~= dec_digits(n as nat));
        }
        s
    }
}

proof fn lemma_dec_val_step(s: Seq<char>, k: int)
    requires
        0 <= k < s.len(),
    ensures
        dec_val(s.take(k + 1)) == dec_val(s.take(k)) * 10 + digit_val(s[k]),
{
    assert(s.take(k + 1).drop_last() =~= s.take(k));
    assert(s.take(k + 1).last() == s[k]);
}

proof fn lemma_dec_val_grows(s: Seq<char>, k: int)
    requires
        0 <= k <= s.len(),
    ensures
        dec_val(s.take(k)) <= dec_val(s),
    decreases s.len() - k,
{
    if k == s.len() {
        assert(s.take(k) =~= s);
    } else {
        lemma_dec_val_step(s, k);
        assert(dec_val(s.take(k)) <= dec_val(s.take(k)) * 10) by {
            assert(dec_val(s.take(k)) * 10 >= dec_val(s.take(k)) * 1) by (nonlinear_arith)
                requires
                    dec_val(s.take(k)) >= 0,
            ;
        }
        lemma_dec_val_grows(s, k + 1);
    }
}

/// Read a decimal number. `None` when the text is empty, holds a non-digit,
/// or encodes a value too large for 64 bits.
pub fn parse_u64(s: &str) -> (parsed: Option<u64>)
    ensures
        match parsed {
            Some(v) => s@.len() > 0 && all_digits(s@) && dec_val(s@) == v,
            None => s@.len() == 0 || !all_digits(s@) || dec_val(s@) > u64::MAX,
        },
{
    let len = s.unicode_len();
    if len == 0 {
        return None;
    }
    let mut acc: u64 = 0;
    let mut i: usize = 0;
    while i < len
        invariant
            i <= len,
            len == s@.len(),
            forall|k: int| 0 <= k < i ==> is_digit(#[trigger] s@[k]),
            acc == dec_val(s@.take(i as int)),
        decreases len - i,
    {
        let d = match digit_of_char(s.get_char(i)) {
            Some(d) => d,
            None => {
                return None;
            },
        };
        proof {
            lemma_dec_val_step(s@, i as int);
        }
        let shifted = match acc.checked_mul(10) {
            Some(v) => v,
            None => {
                proof {
                    lemma_dec_val_grows(s@, i + 1);
                }
                return None;
            },
        };
        let next = match shifted.checked_add(d) {
            Some(v) => v,
            None => {
                proof {
                    lemma_dec_val_grows(s@, i + 1);
                }
                return None;
            },
        };
        acc = next;
        i += 1;
    }
    proof {
        assert(s@.take(len as int) =~= s@);
    }
    Some(acc)
}

// ---------------------------------------------------------------------------
// Archive names.
// ---------------------------------------------------------------------------
/// `<server id>-<seconds since epoch>.tar.gz`.
pub open spec fn backup_name(game_id: Seq<char>, time: nat) -> Seq<char> {
    game_id + "-"@ + dec_digits(time) + ".tar.gz"@
}

/// Compose the archive filename for a cycle.
pub fn backup_filename(game: GameServer, time: u64) -> (name: String)
    ensures
        name@ == backup_name(game.spec_id(), time as nat),
{
    let mut name = game.id_str().to_owned();
    name.append("-");
    let digits = format_u64(time);
    name.append(digits.as_str());
    name.append(".tar.gz");
    proof {
        assert(name@ =~= backup_name(game.spec_id(), time as nat));
    }
    name
}

/// The index of the last occurrence of `c`, if any.
pub open spec fn find_last(s: Seq<char>, c: char) -> Option<int>
    decreases s.len(),
{
    if s.len() == 0 {
        None
    } else if s.last() == c {
        Some(s.len() - 1)
    } else {
        find_last(s.drop_last(), c)
    }
}

pub proof fn lemma_find_last(s: Seq<char>, c: char)
    ensures
        match find_last(s, c) {
            Some(i) => 0 <= i < s.len() && s[i] == c && (forall|k: int|
                i < k < s.len() ==> s[k] != c),
            None => forall|k: int| 0 <= k < s.len() ==> s[k] != c,
        },
    decreases s.len(),
{
    broadcast use group_seq_properties;

    if s.len() > 0 && s.last() != c {
        lemma_find_last(s.drop_last(), c);
        assert forall|k: int| 0 <= k < s.len() - 1 implies s[k] == s.drop_last()[k] by {}
    }
}

/// The timestamp an archive name carries: the decimal value between the last
/// `-` and the `.tar.gz` suffix. `None` when the name was not produced by
/// `backup_filename` for any server and time.
pub open spec fn backup_name_time(name: Seq<char>) -> Option<nat> {
    if name.len() < 7 || name.skip(name.len() - 7) != ".tar.gz"@ {
        None
    } else {
        let body = name.take(name.len() - 7);
        match find_last(body, '-') {
            Some(i) => {
                let digits = body.skip(i + 1);
                if digits.len() > 0 && all_digits(digits) && dec_val(digits) <= u64::MAX {
                    Some(dec_val(digits))
                } else {
                    None
                }
            },
            None => None,
        }
    }
}

fn find_last_in_str(s: &str, c: char) -> (position: Option<usize>)
    ensures
        match position {
            Some(i) => find_last(s@, c) == Some(i as int),
            None => find_last(s@, c) is None,
        },
{
    proof {
        lemma_find_last(s@, c);
    }
    let len = s.unicode_len();
    let mut i: usize = len;
    while i > 0
        invariant
            i <= len,
            len == s@.len(),
            forall|k: int| i <= k < len ==> s@[k] != c,
        decreases i,
    {
        i -= 1;
        if s.get_char(i) == c {
            proof {
                lemma_find_last(s@, c);
                match find_last(s@, c) {
                    Some(j) => {
                        assert(j == i);
                    },
                    None => {
                        assert(s@[i as int] != c);
                    },
                }
            }
            return Some(i);
        }
    }
    None
}

/// Re-parse the cycle timestamp from an archive name.
pub fn parse_backup_time(name: &str) -> (time: Option<u64>)
    ensures
        match time {
            Some(t) => backup_name_time(name@) == Some(t as nat),
            None => backup_name_time(name@) is None,
        },
{
    let len = name.unicode_len();
    if len < 7 {
        return None;
    }
    let suffix = name.substring_char(len - 7, len);
    if !suffix.to_owned().eq(&String::from_str(".tar.gz")) {
        proof {
            assert(name@.skip(len - 7) =~= name@.subrange(len - 7, len as int));
        }
        return None;
    }
    proof {
        assert(name@.skip(len - 7) =~= name@.subrange(len - 7, len as int));
    }
    let body = name.substring_char(0, len - 7);
    proof {
        assert(body@ =~= name@.take(len - 7));
    }
    let dash = match find_last_in_str(body, '-') {
        Some(i) => i,
        None => {
            return None;
        },
    };
    proof {
        lemma_find_last(body@, '-');
    }
    let body_len = body.unicode_len();
    let digits = body.substring_char(dash + 1, body_len);
    proof {
        assert(digits@ =~= body@.skip(dash + 1));
    }
    parse_u64(digits)
}

/// An archive name parses back to the very timestamp it was built from,
/// whatever the server id.
pub proof fn lemma_backup_name_roundtrip(game_id: Seq<char>, time: u64)
    ensures
        backup_name_time(backup_name(game_id, time as nat)) == Some(time as nat),
{
    broadcast use group_seq_properties;

    let digits = dec_digits(time as nat);
    lemma_dec_digits_shape(time as nat);
    lemma_dec_roundtrip(time as nat);
    let name = backup_name(game_id, time as nat);
    reveal_strlit(".tar.gz");
    reveal_strlit("-");
    assert(name.skip(name.len() - 7) =~= ".tar.gz"@);
    let body = name.take(name.len() - 7);
    assert(body =~= game_id + "-"@ + digits);
    let dash = game_id.len() as int;
    assert(body[dash] == '-');
    assert forall|k: int| dash < k < body.len() implies body[k] != '-' by {
        assert(body[k] == digits[k - dash - 1]);
        assert(is_digit(digits[k - dash - 1]));
    }
    lemma_find_last(body, '-');
    match find_last(body, '-') {
        Some(i) => {
            assert(i == dash);
            assert(body.skip(dash + 1) =~= digits);
        },
        None => {
            assert(body[dash] != '-');
        },
    }
}

/// The archive a cycle just produced is never selected by that same cycle's
/// prune: its embedded timestamp is `now` itself, inside any retention
/// window.
pub proof fn lemma_fresh_archive_survives_prune(game_id: Seq<char>, now: u64, retention: u64)
    ensures
        !stale_name(backup_name(game_id, now as nat), now as nat, retention as nat),
{
    lemma_backup_name_roundtrip(game_id, now);
}

/// An archive is stale once its embedded timestamp is older than
/// `now - retention`. Names that carry no timestamp are never selected.
pub open spec fn stale_name(name: Seq<char>, now: nat, retention: nat) -> bool {
    match backup_name_time(name) {
        Some(t) => t + retention < now,
        None => false,
    }
}

/// Select, from a backup location's listing, the archives whose embedded
/// timestamp lies outside the retention window. Entries the parser does not
/// recognise are left alone.
pub fn prune_selection(names: &Vec<String>, now: u64, retention: u64) -> (doomed: Vec<String>)
    ensures
        doomed.deep_view() == names.deep_view().filter(
            |n: Seq<char>| stale_name(n, now as nat, retention as nat),
        ),
{
    broadcast use group_seq_properties;

    let ghost nv = names.deep_view();
    let ghost stale = |n: Seq<char>| stale_name(n, now as nat, retention as nat);
    let mut doomed: Vec<String> = Vec::new();
    let mut i: usize = 0;
    while i < names.len()
        invariant
            i <= names.len(),
            nv == names.deep_view(),
            doomed.deep_view() == nv.take(i as int).filter(stale),
            forall|n: Seq<char>| #[trigger] stale(n) == stale_name(n, now as nat, retention as nat),
        decreases names.len() - i,
    {
        proof {
            assert(nv.take(i + 1) =~= nv.take(i as int).push(nv[i as int]));
            nv.take(i as int).lemma_filter_push(nv[i as int], stale);
            assert(nv[i as int] == names@[i as int]@);
        }
        let ghost pre = doomed.deep_view();
        let old_enough = match parse_backup_time(names[i].as_str()) {
            Some(t) => now > retention && t < now - retention,
            None => false,
        };
        if old_enough {
            doomed.push(names[i].clone());
            proof {
                assert(doomed.deep_view() =~= pre.push(nv[i as int]));
            }
        }
        i += 1;
    }
    proof {
        assert(nv.take(names.len() as int) =~= nv);
    }
    doomed
}

} // verus!
