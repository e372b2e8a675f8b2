//! Composing the status notification for a roster change.
//!
//! A change message holds up to three clauses, joined by single spaces and
//! omitting empty ones: who joined, who disconnected, and who is online now.
//! Name lists are written with an Oxford comma.

use crate::players::{diff_disconnected, diff_joined, diff_remaining, get_player_diff};
use oxford_join::OxfordJoin;
use vstd::prelude::*;
use vstd::string::StringExecFns;

verus! {

/// The names up to the last one, each followed by a comma and a space.
pub open spec fn comma_list(names: Seq<Seq<char>>) -> Seq<char>
    decreases names.len(),
{
    if names.len() == 0 {
        Seq::empty()
    } else {
        comma_list(names.drop_last()) + names.last() + ", "@
    }
}

/// An Oxford-comma list bound by "and": "", "a", "a and b", or
/// "a, b, and c".
pub open spec fn oxford_and(names: Seq<Seq<char>>) -> Seq<char> {
    if names.len() == 0 {
        Seq::empty()
    } else if names.len() == 1 {
        names[0]
    } else if names.len() == 2 {
        names[0] + " and "@ + names[1]
    } else {
        comma_list(names.drop_last()) + "and "@ + names.last()
    }
}

/// Relies on `oxford_join`'s join for slices: an empty slice yields the empty
/// string, a single name is returned as-is, two names are glued with
/// `" and "`, and three or more are comma-separated with `"and "` spliced in
/// before the last.
#[verifier::external_body]
fn oxford_join_and(names: &Vec<String>) -> (joined: String)
    ensures
        joined@ == oxford_and(names.deep_view()),
{
    names.as_slice().oxford_join(oxford_join::Conjunction::And).into_owned()
}

/// "<names> has|have joined." (singular verb for exactly one name).
pub open spec fn joined_clause(joined: Seq<Seq<char>>) -> Seq<char> {
    oxford_and(joined) + if joined.len() == 1 {
        " has joined."@
    } else {
        " have joined."@
    }
}

/// "<names> has|have disconnected." (singular verb for exactly one name).
pub open spec fn disconnected_clause(disconnected: Seq<Seq<char>>) -> Seq<char> {
    oxford_and(disconnected) + if disconnected.len() == 1 {
        " has disconnected."@
    } else {
        " have disconnected."@
    }
}

/// "<names> is|are online." (singular verb for exactly one name).
pub open spec fn online_clause(remaining: Seq<Seq<char>>) -> Seq<char> {
    oxford_and(remaining) + if remaining.len() == 1 {
        " is online."@
    } else {
        " are online."@
    }
}

/// Append a clause to the message built so far, with a single separating
/// space unless the message is still empty.
pub open spec fn with_clause(acc: Seq<char>, clause: Seq<char>) -> Seq<char> {
    if acc.len() == 0 {
        clause
    } else {
        acc + " "@ + clause
    }
}

/// The notification text for a roster change, or `None` when neither joins
/// nor disconnects happened: changes confined to the remaining players never
/// trigger a notification. When someone disconnected, nobody joined, and
/// nobody remains, the presence clause reads "Nobody is online.".
pub open spec fn change_message(before: Seq<Seq<char>>, after: Seq<Seq<char>>) -> Option<
    Seq<char>,
> {
    let d = diff_disconnected(before, after);
    let j = diff_joined(before, after);
    let r = diff_remaining(before, after);
    if j.len() == 0 && d.len() == 0 {
        None
    } else {
        let m1 = if j.len() > 0 {
            joined_clause(j)
        } else {
            Seq::empty()
        };
        let m2 = if d.len() > 0 {
            with_clause(m1, disconnected_clause(d))
        } else {
            m1
        };
        let m3 = if r.len() > 0 {
            with_clause(m2, online_clause(r))
        } else if d.len() > 0 && j.len() == 0 {
            with_clause(m2, "Nobody is online."@)
        } else {
            m2
        };
        Some(m3)
    }
}

/// Diff the two rosters and compose the notification text, or `None` when
/// nothing joined or disconnected.
pub fn get_player_changes(before: &Vec<String>, after: &Vec<String>) -> (message: Option<String>)
    ensures
        message.deep_view() == change_message(before.deep_view(), after.deep_view()),
{
    let ghost bv = before.deep_view();
    let ghost av = after.deep_view();
    let (disconnected, joined, remaining) = get_player_diff(before, after);
    let ghost d = disconnected.deep_view();
    let ghost j = joined.deep_view();
    let ghost r = remaining.deep_view();

    if disconnected.len() == 0 && joined.len() == 0 {
        return None;
    }
    proof {
        reveal_strlit(" has joined.");
        reveal_strlit(" have joined.");
        reveal_strlit(" has disconnected.");
        reveal_strlit(" have disconnected.");
        reveal_strlit(" is online.");
        reveal_strlit(" are online.");
        reveal_strlit("Nobody is online.");
        reveal_strlit(" ");
    }
    let ghost m1 = if j.len() > 0 {
        joined_clause(j)
    } else {
        Seq::<char>::empty()
    };
    let ghost m2 = if d.len() > 0 {
        with_clause(m1, disconnected_clause(d))
    } else {
        m1
    };

    let mut msg = String::new();
    if joined.len() > 0 {
        msg.append(oxford_join_and(&joined).as_str());
        if joined.len() == 1 {
            msg.append(" has joined.");
        } else {
            msg.append(" have joined.");
        }
        proof {
            assert(msg@ =~= m1);
        }
    }
    if disconnected.len() > 0 {
        if joined.len() > 0 {
            msg.append(" ");
        }
        msg.append(oxford_join_and(&disconnected).as_str());
        if disconnected.len() == 1 {
            msg.append(" has disconnected.");
        } else {
            msg.append(" have disconnected.");
        }
        proof {
            assert(msg@ =~= m2);
        }
    }
    if remaining.len() > 0 {
        msg.append(" ");
        msg.append(oxford_join_and(&remaining).as_str());
        if remaining.len() == 1 {
            msg.append(" is online.");
        } else {
            msg.append(" are online.");
        }
        proof {
            assert(msg@ =~= with_clause(m2, online_clause(r)));
        }
    } else if disconnected.len() > 0 && joined.len() == 0 {
        msg.append(" ");
        msg.append("Nobody is online.");
        proof {
            assert(msg@ =~= with_clause(m2, "Nobody is online."@));
        }
    }
    Some(msg)
}

/// There is no notification exactly when nobody joined and nobody
/// disconnected — whatever the remaining players are doing.
pub proof fn lemma_change_message_none(before: Seq<Seq<char>>, after: Seq<Seq<char>>)
    ensures
        change_message(before, after) is None <==> (diff_joined(before, after).len() == 0
            && diff_disconnected(before, after).len() == 0),
{
}

/// A roster compared against itself reports no change, so reconciling the
/// same roster twice posts at most one notification: the second pass leaves
/// the persisted message record untouched.
pub proof fn lemma_same_roster_no_change(roster: Seq<Seq<char>>)
    ensures
        change_message(roster, roster) is None,
{
    crate::players::lemma_diff_self(roster);
}

} // verus!
