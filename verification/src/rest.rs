//! What the HTTP collaborator computes before it sends: the value of the
//! authorization header and the addresses of its two requests.

use vstd::prelude::*;
use vstd::string::StringExecFns;

verus! {

/// The version of the HTTP interface that reactions go to.
pub const API_VERSION: u8 = 10;

/// The decimal digit `d`, for `d` below ten.
pub open spec fn digit(d: nat) -> char {
    if d == 0 {
        '0'
    } else if d == 1 {
        '1'
    } else if d == 2 {
        '2'
    } else if d == 3 {
        '3'
    } else if d == 4 {
        '4'
    } else if d == 5 {
        '5'
    } else if d == 6 {
        '6'
    } else if d == 7 {
        '7'
    } else if d == 8 {
        '8'
    } else {
        '9'
    }
}

/// The decimal numeral of `n`, without leading zeros.
pub open spec fn decimal(n: nat) -> Seq<char>
    decreases n,
{
    if n < 10 {
        seq![digit(n)]
    } else {
        decimal(n / 10).push(digit(n % 10))
    }
}

/// The value of the authorization header for the token `token`.
pub open spec fn authorization_spec(token: Seq<char>) -> Seq<char> {
    "Bot "@ + token
}

/// The address of the request that adds the client's reaction `emoji` to
/// the message `message_id` of the channel `channel_id`.
pub open spec fn reaction_url_spec(
    version: u8,
    channel_id: Seq<char>,
    message_id: Seq<char>,
    emoji: Seq<char>,
) -> Seq<char> {
    "https://discord.com/api/v"@ + decimal(version as nat) + "/channels/"@ + channel_id
        + "/messages/"@ + message_id + "/reactions/"@ + emoji + "/@me"@
}

fn digit_text(d: u8) -> (r: &'static str)
    requires
        d < 10,
    ensures
        r@ == seq![digit(d as nat)],
{
    proof {
        reveal_strlit("0");
        reveal_strlit("1");
        reveal_strlit("2");
        reveal_strlit("3");
        reveal_strlit("4");
        reveal_strlit("5");
        reveal_strlit("6");
        reveal_strlit("7");
        reveal_strlit("8");
        reveal_strlit("9");
    }
    let r = match d {
        0 => "0",
        1 => "1",
        2 => "2",
        3 => "3",
        4 => "4",
        5 => "5",
        6 => "6",
        7 => "7",
        8 => "8",
        _ => "9",
    };
    assert(r@ =~= seq![digit(d as nat)]);
    r
}

/// The decimal numeral of `n`.
pub fn decimal_text(n: u8) -> (r: String)
    ensures
        r@ == decimal(n as nat),
{
    let mut out = String::new();
    if n >= 100 {
        out.append(digit_text(n / 100));
    }
    if n >= 10 {
        out.append(digit_text((n / 10) % 10));
    }
    out.append(digit_text(n % 10));
    proof {
        let k: nat = n as nat;
        if k >= 100 {
            assert(decimal(k / 100) =~= seq![digit(k / 100)]);
            assert((k / 10) / 10 == k / 100);
            assert(decimal(k / 10) =~= seq![digit(k / 100), digit((k / 10) % 10)]);
            assert(decimal(k) =~= seq![digit(k / 100), digit((k / 10) % 10), digit(k % 10)]);
        } else if k >= 10 {
            assert(decimal(k / 10) =~= seq![digit(k / 10)]);
            assert(decimal(k) =~= seq![digit(k / 10), digit(k % 10)]);
        }
        assert(out@ =~= decimal(k));
    }
    out
}

/// The value of the authorization header for the token `token`.
pub fn authorization(token: &str) -> (r: String)
    ensures
        r@ == authorization_spec(token@),
{
    let mut out = "Bot ".to_owned();
    out.append(token);
    out
}

/// The address of the request that adds the client's reaction `emoji` to
/// the message `message_id` of the channel `channel_id`.
pub fn reaction_url(version: u8, channel_id: &str, message_id: &str, emoji: &str) -> (r: String)
    ensures
        r@ == reaction_url_spec(version, channel_id@, message_id@, emoji@),
{
    let mut out = "https://discord.com/api/v".to_owned();
    out.append(decimal_text(version).as_str());
    out.append("/channels/");
    out.append(channel_id);
    out.append("/messages/");
    out.append(message_id);
    out.append("/reactions/");
    out.append(emoji);
    out.append("/@me");
    out
}

/// The address of the request for the client's own identity.
pub fn identity_url() -> (r: String)
    ensures
        r@ == "https://discord.com/api/oauth2/applications/@me"@,
{
    "https://discord.com/api/oauth2/applications/@me".to_owned()
}

} // verus!
