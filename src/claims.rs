//! The daily reward claim: reading an account's cookie, the report of a
//! scheduled claim over all accounts, and the reply to a manual claim.
use vstd::prelude::*;
use vstd::string::StringExecFns;

use crate::links::group_in;
use crate::models::{HoyolabAccount, ZenlessReturnCode};
use crate::pattern::{first_match, take_group};
use crate::text::{decimal, decimal_of, signed_decimal, signed_decimal_of};

verus! {

/// The pattern that finds the cookie `name` in a cookie header.
pub open spec fn cookie_pattern_of(name: Seq<char>) -> Seq<char> {
    "(^| )"@ + name + "=([^;]+)"@
}

/// The value of the cookie `name` in a cookie header.
pub open spec fn cookie_value_of(cookie: Seq<char>, name: Seq<char>) -> Option<Seq<char>> {
    group_in(cookie_pattern_of(name), cookie, 2)
}

/// Reads the value of the cookie `name` from a cookie header.
pub fn cookie_value(cookie: &str, name: &str) -> (r: Option<String>)
    ensures
        match r {
            Some(v) => cookie_value_of(cookie@, name@) == Some(v@),
            None => cookie_value_of(cookie@, name@) is None,
        },
{
    let mut pattern = String::from_str("(^| )");
    pattern.append(name);
    pattern.append("=([^;]+)");
    take_group(first_match(pattern.as_str(), cookie), 2)
}

/// The cookie kept for an account: its token and user id, in a fixed form;
/// none unless the header carries both.
pub open spec fn normalized_cookie_of(cookie: Seq<char>) -> Option<Seq<char>> {
    let token = cookie_value_of(cookie, "ltoken_v2"@);
    let uid = cookie_value_of(cookie, "ltuid_v2"@);
    if token is Some && uid is Some {
        Some("ltoken_v2="@ + token->Some_0 + "; ltuid_v2="@ + uid->Some_0)
    } else {
        None
    }
}

/// Keeps the token and user id of a cookie header in a fixed form.
pub fn normalized_cookie(cookie: &str) -> (r: Option<String>)
    ensures
        match r {
            Some(v) => normalized_cookie_of(cookie@) == Some(v@),
            None => normalized_cookie_of(cookie@) is None,
        },
{
    let token = cookie_value(cookie, "ltoken_v2");
    let uid = cookie_value(cookie, "ltuid_v2");
    match (token, uid) {
        (Some(t), Some(u)) => {
            let mut s = String::from_str("ltoken_v2=");
            s.append(t.as_str());
            s.append("; ltuid_v2=");
            s.append(u.as_str());
            Some(s)
        },
        _ => None,
    }
}

/// What a claim request came back with.
#[derive(Clone, Copy, Debug, PartialEq, Eq, Structural)]
pub enum ClaimOutcome {
    /// The portal answered with this code.
    Answered(ZenlessReturnCode),
    /// The request itself failed.
    RequestFailed,
}

/// The report line of one account, numbered from one; none for a failed
/// request.
pub open spec fn claim_line_of(n: nat, user: Seq<char>, outcome: ClaimOutcome) -> Seq<char> {
    let head = decimal_of(n) + ". <@"@ + user + ">: "@;
    match outcome {
        ClaimOutcome::Answered(ZenlessReturnCode::Success) => head + "daily reward claimed successfully."@,
        ClaimOutcome::Answered(ZenlessReturnCode::AlreadyClaimed) => head
            + "you've already claimed your daily reward for today."@,
        ClaimOutcome::Answered(_) => head
            + "an error occurred while claiming your daily reward. please try claiming manually using `s>zzz daily`."@,
        ClaimOutcome::RequestFailed => Seq::empty(),
    }
}

/// The report over the first `n` accounts.
pub open spec fn claim_report_upto(users: Seq<Seq<char>>, outcomes: Seq<ClaimOutcome>, n: nat) -> Seq<char>
    decreases n,
{
    if n == 0 {
        "today's daily claim status:\n"@
    } else {
        claim_report_upto(users, outcomes, (n - 1) as nat) + claim_line_of(n, users[n - 1], outcomes[n - 1])
    }
}

/// An account whose claim request failed adds nothing to the report, and
/// one whose claim succeeded adds its numbered success line, whatever the
/// other accounts' outcomes.
pub proof fn law_claim_lines_are_independent(users: Seq<Seq<char>>, outcomes: Seq<ClaimOutcome>, n: nat)
    requires
        n < users.len(),
        n < outcomes.len(),
    ensures
        outcomes[n as int] == ClaimOutcome::RequestFailed ==> claim_report_upto(users, outcomes, n + 1)
            == claim_report_upto(users, outcomes, n),
        outcomes[n as int] == ClaimOutcome::Answered(ZenlessReturnCode::Success) ==> claim_report_upto(
            users,
            outcomes,
            n + 1,
        ) == claim_report_upto(users, outcomes, n) + decimal_of(n + 1) + ". <@"@ + users[n as int] + ">: "@
            + "daily reward claimed successfully."@,
{
    assert(claim_report_upto(users, outcomes, n + 1) == claim_report_upto(users, outcomes, n) + claim_line_of(
        n + 1,
        users[n as int],
        outcomes[n as int],
    ));
    if outcomes[n as int] == ClaimOutcome::RequestFailed {
        assert(claim_report_upto(users, outcomes, n) + Seq::<char>::empty() =~= claim_report_upto(
            users,
            outcomes,
            n,
        ));
    }
    if outcomes[n as int] == ClaimOutcome::Answered(ZenlessReturnCode::Success) {
        assert(claim_report_upto(users, outcomes, n) + (decimal_of(n + 1) + ". <@"@ + users[n as int] + ">: "@
            + "daily reward claimed successfully."@) =~= claim_report_upto(users, outcomes, n) + decimal_of(n + 1)
            + ". <@"@ + users[n as int] + ">: "@ + "daily reward claimed successfully."@);
    }
}

/// The user ids of the accounts.
pub open spec fn user_ids(accounts: Seq<HoyolabAccount>) -> Seq<Seq<char>> {
    accounts.map_values(|a: HoyolabAccount| a.user_id@)
}

/// Writes the report of a scheduled claim: one line per account whose
/// request got an answer; no report at all without accounts.
pub fn claim_report(accounts: &Vec<HoyolabAccount>, outcomes: &Vec<ClaimOutcome>) -> (r: Option<String>)
    requires
        accounts.len() == outcomes.len(),
        accounts.len() < u64::MAX,
    ensures
        accounts@.len() == 0 ==> r is None,
        accounts@.len() > 0 ==> r is Some && r->Some_0@ == claim_report_upto(
            user_ids(accounts@),
            outcomes@,
            accounts@.len(),
        ),
{
    if accounts.len() == 0 {
        return None;
    }
    let mut s = String::from_str("today's daily claim status:\n");
    let mut i: usize = 0;
    while i < accounts.len()
        invariant
            accounts.len() == outcomes.len(),
            accounts.len() < u64::MAX,
            i <= accounts.len(),
            s@ == claim_report_upto(user_ids(accounts@), outcomes@, i as nat),
        decreases accounts.len() - i,
    {
        let n = decimal((i + 1) as u64);
        let user = accounts[i].user_id.as_str();
        match outcomes[i] {
            ClaimOutcome::RequestFailed => {},
            ClaimOutcome::Answered(code) => {
                s.append(n.as_str());
                s.append(". <@");
                s.append(user);
                s.append(">: ");
                match code {
                    ZenlessReturnCode::Success => s.append("daily reward claimed successfully."),
                    ZenlessReturnCode::AlreadyClaimed => s.append(
                        "you've already claimed your daily reward for today.",
                    ),
                    _ => s.append(
                        "an error occurred while claiming your daily reward. please try claiming manually using `s>zzz daily`.",
                    ),
                }
            },
        }
        assert(user_ids(accounts@)[i as int] == accounts@[i as int].user_id@);
        i = i + 1;
    }
    Some(s)
}

/// The sentence on the month's check-ins.
pub open spec fn days_sentence_of(days: int, month: Seq<char>) -> Seq<char> {
    "you have checked in for **"@ + signed_decimal_of(days) + "** days during "@ + month + "!"@
}

/// The reply to a manual claim: the claim's code, and the month's check-in
/// count when the status request succeeded.
pub open spec fn daily_reply_of(code: ZenlessReturnCode, days: Option<i32>, month: Seq<char>) -> Seq<char> {
    match code {
        ZenlessReturnCode::Success => match days {
            Some(d) => "successfully checked in for today!~ "@ + days_sentence_of(d as int, month),
            None => "successfully checked in for today!~"@,
        },
        ZenlessReturnCode::AlreadyClaimed => match days {
            Some(d) => "you have already checked in for today! "@ + days_sentence_of(d as int, month),
            None => "you have already checked in for today!"@,
        },
        _ => "something wrong happened while checking in."@,
    }
}

/// Writes the reply to a manual claim.
pub fn daily_reply(code: ZenlessReturnCode, days: Option<i32>, month: &str) -> (r: String)
    ensures
        r@ == daily_reply_of(code, days, month@),
{
    let sentence = match days {
        Some(d) => {
            let mut s = String::from_str("you have checked in for **");
            s.append(signed_decimal(d as i64).as_str());
            s.append("** days during ");
            s.append(month);
            s.append("!");
            s
        },
        None => String::new(),
    };
    match code {
        ZenlessReturnCode::Success => match days {
            Some(_) => String::from_str("successfully checked in for today!~ ").concat(sentence.as_str()),
            None => String::from_str("successfully checked in for today!~"),
        },
        ZenlessReturnCode::AlreadyClaimed => match days {
            Some(_) => String::from_str("you have already checked in for today! ").concat(sentence.as_str()),
            None => String::from_str("you have already checked in for today!"),
        },
        _ => String::from_str("something wrong happened while checking in."),
    }
}

} // verus!
