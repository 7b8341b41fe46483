//! The bodies of the responses that report success, and the text of each
//! failure.

use crate::error::ServiceError;
use crate::ident::{hyphenated, uuid_text};
use vstd::prelude::*;
use vstd::string::StringExecFns;

verus! {

/// The decimal digit of a value below ten.
pub open spec fn digit_char(d: int) -> char {
    if d == 0 {
        '0'
    } else if d == 1 {
        '1'
    } else if d == 2 {
        '2'
    } else if d == 3 {
        '3'
    } else if d == 4 {
        '4'
    } else if d == 5 {
        '5'
    } else if d == 6 {
        '6'
    } else if d == 7 {
        '7'
    } else if d == 8 {
        '8'
    } else {
        '9'
    }
}

/// The decimal digits of a natural number, without leading zeros.
pub open spec fn decimal_digits(n: nat) -> Seq<char>
    decreases n,
{
    if n < 10 {
        seq![digit_char(n as int)]
    } else {
        decimal_digits(n / 10).push(digit_char((n % 10) as int))
    }
}

/// The decimal form of an integer, with a minus sign where it is negative.
pub open spec fn decimal(n: int) -> Seq<char> {
    if n < 0 {
        seq!['-'] + decimal_digits((-n) as nat)
    } else {
        decimal_digits(n as nat)
    }
}

fn digit_text(d: u32) -> (t: &'static str)
    requires
        d < 10,
    ensures
        t@ == seq![digit_char(d as int)],
{
    proof {
        reveal_strlit("0");
        reveal_strlit("1");
        reveal_strlit("2");
        reveal_strlit("3");
        reveal_strlit("4");
        reveal_strlit("5");
        reveal_strlit("6");
        reveal_strlit("7");
        reveal_strlit("8");
        reveal_strlit("9");
    }
    let t = if d == 0 {
        "0"
    } else if d == 1 {
        "1"
    } else if d == 2 {
        "2"
    } else if d == 3 {
        "3"
    } else if d == 4 {
        "4"
    } else if d == 5 {
        "5"
    } else if d == 6 {
        "6"
    } else if d == 7 {
        "7"
    } else if d == 8 {
        "8"
    } else {
        "9"
    };
    assert(t@ =~= seq![digit_char(d as int)]);
    t
}

fn push_digits(out: &mut String, n: u32)
    ensures
        final(out)@ == old(out)@ + decimal_digits(n as nat),
    decreases n,
{
    if n >= 10 {
        push_digits(out, n / 10);
    }
    let ghost before = out@;
    out.append(digit_text(n % 10));
    assert(out@ =~= old(out)@ + decimal_digits(n as nat));
}

/// The decimal form of an id.
pub fn decimal_text(n: i32) -> (text: String)
    ensures
        text@ == decimal(n as int),
{
    let mut out = String::new();
    if n < 0 {
        proof {
            reveal_strlit("-");
        }
        out.append("-");
        let magnitude: u32 = (-(n as i64)) as u32;
        push_digits(&mut out, magnitude);
        assert(out@ =~= seq!['-'] + decimal_digits((-n) as nat));
    } else {
        push_digits(&mut out, n as u32);
        assert(out@ =~= decimal_digits(n as nat));
    }
    out
}

/// The body that reports a created user: the id the store issued.
pub fn user_created_body(id: i32) -> (body: String)
    ensures
        body@ == decimal(id as int),
{
    decimal_text(id)
}

/// The body that reports a granted moderator flag.
pub fn moderator_granted_body(id: i32) -> (body: String)
    ensures
        body@ == decimal(id as int) + " is now a moderator"@,
{
    let mut body = decimal_text(id);
    body.append(" is now a moderator");
    body
}

/// The body that reports a revoked moderator flag.
pub fn moderator_revoked_body(id: i32) -> (body: String)
    ensures
        body@ == decimal(id as int) + " is no longer a moderator"@,
{
    let mut body = decimal_text(id);
    body.append(" is no longer a moderator");
    body
}

/// The body that reports a changed password.
pub fn password_updated_body(id: i32) -> (body: String)
    ensures
        body@ == decimal(id as int) + " password has been updated"@,
{
    let mut body = decimal_text(id);
    body.append(" password has been updated");
    body
}

/// The body that reports a deleted user.
pub fn user_deleted_body(id: i32) -> (body: String)
    ensures
        body@ == decimal(id as int) + " has been deleted"@,
{
    let mut body = decimal_text(id);
    body.append(" has been deleted");
    body
}

/// The body that reports a created comment: its id in hyphenated form.
pub fn comment_created_body(id: u128) -> (body: String)
    ensures
        body@ == hyphenated(id),
{
    uuid_text(id)
}

/// The body that reports an updated comment: its id and the new content.
pub fn comment_updated_body(id: u128, content: &str) -> (body: String)
    ensures
        body@ == hyphenated(id) + " -> "@ + content@,
{
    let mut body = uuid_text(id);
    body.append(" -> ");
    body.append(content);
    body
}

/// The body that reports a deleted comment.
pub fn comment_deleted_body(id: u128) -> (body: String)
    ensures
        body@ == hyphenated(id) + " was deleted"@,
{
    let mut body = uuid_text(id);
    body.append(" was deleted");
    body
}

/// The text of each kind of failure.
pub open spec fn failure_text(e: ServiceError) -> Seq<char> {
    match e {
        ServiceError::NotFound => "not found"@,
        ServiceError::UniqueViolation => "username already taken"@,
        ServiceError::HashingError => "credential could not be hashed or checked"@,
        ServiceError::PersistenceError => "store failure"@,
        ServiceError::ValidationError => "invalid input"@,
    }
}

/// The body that reports a failure.
pub fn failure_body(e: ServiceError) -> (body: String)
    ensures
        body@ == failure_text(e),
{
    match e {
        ServiceError::NotFound => String::from_str("not found"),
        ServiceError::UniqueViolation => String::from_str("username already taken"),
        ServiceError::HashingError => String::from_str(
            "credential could not be hashed or checked",
        ),
        ServiceError::PersistenceError => String::from_str("store failure"),
        ServiceError::ValidationError => String::from_str("invalid input"),
    }
}

} // verus!
