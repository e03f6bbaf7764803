//! Decimal rendering of snowflake ids, mention strings, and jump URLs.
//!
//! Every exec function here returns a `String` whose character sequence is
//! pinned exactly by a spec function, so the formatter and post builder can
//! state their output text character for character.

use vstd::prelude::*;
use vstd::string::StrSliceExecFns;
use vstd::string::StringExecFns;

verus! {

/// The decimal digit character for `d` (`d < 10`).
pub open spec fn digit_char(d: nat) -> char {
    if d == 0 {
        '0'
    } else if d == 1 {
        '1'
    } else if d == 2 {
        '2'
    } else if d == 3 {
        '3'
    } else if d == 4 {
        '4'
    } else if d == 5 {
        '5'
    } else if d == 6 {
        '6'
    } else if d == 7 {
        '7'
    } else if d == 8 {
        '8'
    } else {
        '9'
    }
}

/// The usual decimal rendering of `n`, most significant digit first,
/// with no leading zeros (a single `'0'` for zero).
pub open spec fn dec_spec(n: nat) -> Seq<char>
    decreases n,
{
    if n < 10 {
        seq![digit_char(n)]
    } else {
        dec_spec(n / 10).push(digit_char(n % 10))
    }
}

/// A user mention, `<@id>`.
pub open spec fn user_mention_spec(id: u64) -> Seq<char> {
    "<@"@ + dec_spec(id as nat) + ">"@
}

/// A channel mention, `<#id>`.
pub open spec fn channel_mention_spec(id: u64) -> Seq<char> {
    "<#"@ + dec_spec(id as nat) + ">"@
}

/// The canonical jump URL for a message:
/// `https://discord.com/channels/<guild>/<channel>/<message>`, where the
/// guild segment is omitted outside a guild and the message segment is
/// omitted when no message id is given.
pub open spec fn jump_url_spec(guild_id: Option<u64>, channel_id: u64, message_id: Option<u64>) -> Seq<
    char,
> {
    "https://discord.com/channels"@ + (match guild_id {
        Some(g) => "/"@ + dec_spec(g as nat),
        None => Seq::<char>::empty(),
    }) + "/"@ + dec_spec(channel_id as nat) + (match message_id {
        Some(m) => "/"@ + dec_spec(m as nat),
        None => Seq::<char>::empty(),
    })
}

fn digit_str(d: u64) -> (r: &'static str)
    requires
        d < 10,
    ensures
        r@ == seq![digit_char(d as nat)],
{
    if d == 0 {
        proof {
            reveal_strlit("0");
            assert("0"@ =~= seq![digit_char(d as nat)]);
        }
        "0"
    } else if d == 1 {
        proof {
            reveal_strlit("1");
            assert("1"@ =~= seq![digit_char(d as nat)]);
        }
        "1"
    } else if d == 2 {
        proof {
            reveal_strlit("2");
            assert("2"@ =~= seq![digit_char(d as nat)]);
        }
        "2"
    } else if d == 3 {
        proof {
            reveal_strlit("3");
            assert("3"@ =~= seq![digit_char(d as nat)]);
        }
        "3"
    } else if d == 4 {
        proof {
            reveal_strlit("4");
            assert("4"@ =~= seq![digit_char(d as nat)]);
        }
        "4"
    } else if d == 5 {
        proof {
            reveal_strlit("5");
            assert("5"@ =~= seq![digit_char(d as nat)]);
        }
        "5"
    } else if d == 6 {
        proof {
            reveal_strlit("6");
            assert("6"@ =~= seq![digit_char(d as nat)]);
        }
        "6"
    } else if d == 7 {
        proof {
            reveal_strlit("7");
            assert("7"@ =~= seq![digit_char(d as nat)]);
        }
        "7"
    } else if d == 8 {
        proof {
            reveal_strlit("8");
            assert("8"@ =~= seq![digit_char(d as nat)]);
        }
        "8"
    } else {
        proof {
            reveal_strlit("9");
            assert("9"@ =~= seq![digit_char(d as nat)]);
        }
        "9"
    }
}

/// Renders `n` in decimal.
pub fn u64_to_string(n: u64) -> (r: String)
    ensures
        r@ == dec_spec(n as nat),
    decreases n,
{
    if n < 10 {
        String::from_str(digit_str(n))
    } else {
        let prefix = u64_to_string(n / 10);
        let r = prefix.concat(digit_str(n % 10));
        proof {
            assert((n / 10) as nat == (n as nat) / 10);
            assert((n % 10) as nat == (n as nat) % 10);
            assert(r@ =~= dec_spec(n as nat));
        }
        r
    }
}

/// Renders the user mention `<@id>`.
pub fn user_mention(id: u64) -> (r: String)
    ensures
        r@ == user_mention_spec(id),
{
    let r = String::from_str("<@").concat(u64_to_string(id).as_str()).concat(">");
    proof {
        assert(r@ =~= user_mention_spec(id));
    }
    r
}

/// Renders the channel mention `<#id>`.
pub fn channel_mention(id: u64) -> (r: String)
    ensures
        r@ == channel_mention_spec(id),
{
    let r = String::from_str("<#").concat(u64_to_string(id).as_str()).concat(">");
    proof {
        assert(r@ =~= channel_mention_spec(id));
    }
    r
}

/// Builds the canonical jump URL for a message.
pub fn jump_url(guild_id: Option<u64>, channel_id: u64, message_id: Option<u64>) -> (r: String)
    ensures
        r@ == jump_url_spec(guild_id, channel_id, message_id),
{
    let mut result = String::from_str("https://discord.com/channels");
    if let Some(g) = guild_id {
        result.append("/");
        result.append(u64_to_string(g).as_str());
    }
    result.append("/");
    result.append(u64_to_string(channel_id).as_str());
    if let Some(m) = message_id {
        result.append("/");
        result.append(u64_to_string(m).as_str());
    }
    proof {
        assert(result@ =~= jump_url_spec(guild_id, channel_id, message_id));
    }
    result
}

} // verus!
