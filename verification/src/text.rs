//! Pure text utilities: percent-encoding, token normalization, decimal
//! rendering, and the URI / bucket-key / JSON-body builders used by the
//! request surface.

use vstd::prelude::*;
use vstd::string::*;

verus! {

/// A sequence of ASCII bytes read as characters, one per byte.
pub open spec fn ascii_view(s: Seq<u8>) -> Seq<char> {
    s.map(|_i: int, b: u8| b as char)
}

/// Relies on `String::from_utf8`: ASCII bytes are valid UTF-8 and decode to
/// one character per byte, with the same code points; decoding them never
/// fails, so the call cannot panic under the precondition.
#[verifier::external_body]
fn ascii_to_string(bytes: Vec<u8>) -> (r: String)
    requires
        forall|i: int| 0 <= i < bytes@.len() ==> bytes@[i] < 128,
    ensures
        r@ == ascii_view(bytes@),
{
    String::from_utf8(bytes).unwrap()
}

/// The JSON string literal (quotes and escapes included) that the standard
/// JSON codec produces for a character sequence.
pub uninterp spec fn json_quoted(s: Seq<char>) -> Seq<char>;

/// Relies on `serde_json::to_string`: for a string slice the result is the
/// JSON string literal for it, a function of the characters alone, and
/// serializing a string slice never fails, so the call cannot panic.
#[verifier::external_body]
pub(crate) fn json_quote(s: &str) -> (r: String)
    ensures
        r@ == json_quoted(s@),
{
    serde_json::to_string(s).unwrap()
}

/// Bytes that a URL carries as themselves: ASCII letters, digits, and
/// `- _ . ~`. Everything else is percent-encoded.
pub open spec fn is_url_unreserved(b: u8) -> bool {
    (65 <= b <= 90) || (97 <= b <= 122) || (48 <= b <= 57) || b == 45 || b == 95 || b == 46
        || b == 126
}

/// The character for one hexadecimal digit, upper case.
pub open spec fn hex_char(n: u8) -> char
    recommends
        n < 16,
{
    if n < 10 {
        ((48 + n) as u8) as char
    } else {
        ((55 + n) as u8) as char
    }
}

/// How one byte appears in a percent-encoded string.
pub open spec fn encoded_byte(b: u8) -> Seq<char> {
    if is_url_unreserved(b) {
        seq![b as char]
    } else {
        seq!['%', hex_char(b / 16), hex_char(b % 16)]
    }
}

/// The percent-encoding of a byte sequence.
pub open spec fn encoded_bytes(s: Seq<u8>) -> Seq<char>
    decreases s.len(),
{
    if s.len() == 0 {
        Seq::empty()
    } else {
        encoded_bytes(s.drop_last()) + encoded_byte(s.last())
    }
}

fn hex_digit(n: u8) -> (r: u8)
    requires
        n < 16,
    ensures
        r < 128,
        r as char == hex_char(n),
{
    if n < 10 {
        48 + n
    } else {
        55 + n
    }
}

/// Percent-encode every byte of `data` that is not an unreserved URL
/// character, so the result is safe inside a URL path segment.
pub fn encode(data: &str) -> (r: String)
    ensures
        r@ == encoded_bytes(data.spec_bytes()),
{
    let bytes = data.as_bytes_vec();
    let mut out: Vec<u8> = Vec::new();
    let mut i: usize = 0;
    while i < bytes.len()
        invariant
            i <= bytes@.len(),
            bytes@ == data.spec_bytes(),
            forall|j: int| 0 <= j < out@.len() ==> out@[j] < 128,
            ascii_view(out@) =~= encoded_bytes(bytes@.subrange(0, i as int)),
        decreases bytes@.len() - i,
    {
        let b = bytes[i];
        if (65 <= b && b <= 90) || (97 <= b && b <= 122) || (48 <= b && b <= 57) || b == 45
            || b == 95 || b == 46 || b == 126 {
            out.push(b);
        } else {
            out.push(37);
            out.push(hex_digit(b / 16));
            out.push(hex_digit(b % 16));
        }
        proof {
            assert(bytes@.subrange(0, i + 1 as int).drop_last() =~= bytes@.subrange(0, i as int));
            assert(bytes@.subrange(0, i + 1 as int).last() == bytes@[i as int]);
            assert(ascii_view(out@) =~= encoded_bytes(bytes@.subrange(0, i + 1 as int)));
        }
        i = i + 1;
    }
    proof {
        assert(bytes@.subrange(0, bytes@.len() as int) =~= bytes@);
    }
    ascii_to_string(out)
}

/// The decimal character for one digit.
pub open spec fn dec_char(d: u8) -> char
    recommends
        d < 10,
{
    ((48 + d) as u8) as char
}

/// The decimal rendering of a natural number, most significant digit first.
pub open spec fn dec_str(n: nat) -> Seq<char>
    decreases n,
{
    if n < 10 {
        seq![dec_char(n as u8)]
    } else {
        dec_str(n / 10) + seq![dec_char((n % 10) as u8)]
    }
}

/// Render a number in decimal.
pub fn u64_to_string(n: u64) -> (r: String)
    ensures
        r@ == dec_str(n as nat),
    decreases n,
{
    let d: u8 = (n % 10) as u8;
    let mut v: Vec<u8> = Vec::new();
    v.push(48 + d);
    proof {
        assert(ascii_view(v@) =~= seq![dec_char(d)]);
    }
    let digit = ascii_to_string(v);
    if n < 10 {
        digit
    } else {
        let prefix = u64_to_string(n / 10);
        let r = prefix.concat(digit.as_str());
        proof {
            assert(r@ =~= dec_str(n as nat));
        }
        r
    }
}

/// The prefix the service expects in front of a bot token.
pub open spec fn bot_prefix() -> Seq<char> {
    seq!['B', 'o', 't', ' ']
}

/// Whether a token already carries the `Bot ` prefix.
pub open spec fn has_bot_prefix(s: Seq<char>) -> bool {
    s.len() >= 4 && s.subrange(0, 4) == bot_prefix()
}

/// A token as the service expects it: prefixed with `Bot ` exactly once.
pub open spec fn normalized_token(s: Seq<char>) -> Seq<char> {
    if has_bot_prefix(s) {
        s
    } else {
        bot_prefix() + s
    }
}

/// Prefix `Bot ` to a token that does not already start with it.
pub fn normalize_token(token: &str) -> (r: String)
    ensures
        r@ == normalized_token(token@),
{
    let n = token.unicode_len();
    let prefixed = n >= 4 && token.get_char(0) == 'B' && token.get_char(1) == 'o'
        && token.get_char(2) == 't' && token.get_char(3) == ' ';
    if prefixed {
        proof {
            assert(token@.subrange(0, 4) =~= bot_prefix());
        }
        token.to_owned()
    } else {
        proof {
            reveal_strlit("Bot ");
            assert("Bot "@ =~= bot_prefix());
            if token@.len() >= 4 && token@.subrange(0, 4) == bot_prefix() {
                assert(token@[0] == 'B' && token@[1] == 'o' && token@[2] == 't' && token@[3]
                    == ' ');
            }
        }
        let mut r = String::from_str("Bot ");
        r.append(token);
        r
    }
}

/// Base URL of the REST transport; every resource path is relative to it.
pub open spec fn spec_base_url() -> Seq<char> {
    "https://discord.com/api/v6"@
}

/// The fixed base URL of the REST transport.
pub fn base_url() -> (r: String)
    ensures
        r@ == spec_base_url(),
{
    String::from_str("https://discord.com/api/v6")
}

/// URI of one channel resource.
pub open spec fn spec_channel_uri(id: Seq<char>) -> Seq<char> {
    spec_base_url() + "/channels/"@ + id
}

/// Build the URI of one channel resource.
pub fn channel_uri(channel_id: &str) -> (r: String)
    ensures
        r@ == spec_channel_uri(channel_id@),
{
    let mut r = base_url();
    r.append("/channels/");
    r.append(channel_id);
    proof {
        assert(r@ =~= spec_channel_uri(channel_id@));
    }
    r
}

/// URI of a channel's message collection.
pub open spec fn spec_channel_messages_uri(id: Seq<char>) -> Seq<char> {
    spec_channel_uri(id) + "/messages"@
}

/// Build the URI of a channel's message collection.
pub fn channel_messages_uri(channel_id: &str) -> (r: String)
    ensures
        r@ == spec_channel_messages_uri(channel_id@),
{
    let mut r = channel_uri(channel_id);
    r.append("/messages");
    r
}

/// URI of one message in a channel. The path stem is spelled as the service
/// route expects it.
pub open spec fn spec_single_message_uri(id: Seq<char>, msg: Seq<char>) -> Seq<char> {
    spec_base_url() + "/channel/"@ + id + "/messages/"@ + msg
}

/// Build the URI of one message in a channel.
pub fn single_message_uri(channel_id: &str, msg_id: &str) -> (r: String)
    ensures
        r@ == spec_single_message_uri(channel_id@, msg_id@),
{
    let mut r = base_url();
    r.append("/channel/");
    r.append(channel_id);
    r.append("/messages/");
    r.append(msg_id);
    proof {
        assert(r@ =~= spec_single_message_uri(channel_id@, msg_id@));
    }
    r
}

/// URI of one message inside a channel's message collection.
pub open spec fn spec_message_uri(id: Seq<char>, msg: Seq<char>) -> Seq<char> {
    spec_channel_messages_uri(id) + "/"@ + msg
}

/// Build the URI of one message inside a channel's message collection.
pub fn message_uri(channel_id: &str, msg_id: &str) -> (r: String)
    ensures
        r@ == spec_message_uri(channel_id@, msg_id@),
{
    let mut r = channel_messages_uri(channel_id);
    r.append("/");
    r.append(msg_id);
    proof {
        assert(r@ =~= spec_message_uri(channel_id@, msg_id@));
    }
    r
}

/// URI that pages a channel's messages around / before / after an anchor
/// message, with a page-size limit.
pub open spec fn spec_messages_page_uri(
    id: Seq<char>,
    filter: Seq<char>,
    msg: Seq<char>,
    limit: u8,
) -> Seq<char> {
    spec_channel_messages_uri(id) + "?"@ + filter + "="@ + msg + "&limit="@ + dec_str(
        limit as nat,
    )
}

fn messages_page_uri(channel_id: &str, filter: &str, msg_id: &str, limit: u8) -> (r: String)
    ensures
        r@ == spec_messages_page_uri(channel_id@, filter@, msg_id@, limit),
{
    let mut r = channel_messages_uri(channel_id);
    r.append("?");
    r.append(filter);
    r.append("=");
    r.append(msg_id);
    r.append("&limit=");
    let n = u64_to_string(limit as u64);
    r.append(n.as_str());
    proof {
        assert(r@ =~= spec_messages_page_uri(channel_id@, filter@, msg_id@, limit));
    }
    r
}

/// Build the URI that pages messages around an anchor message.
pub fn messages_around_uri(channel_id: &str, msg_id: &str, limit: u8) -> (r: String)
    ensures
        r@ == spec_messages_page_uri(channel_id@, "around"@, msg_id@, limit),
{
    messages_page_uri(channel_id, "around", msg_id, limit)
}

/// Build the URI that pages messages before an anchor message.
pub fn messages_before_uri(channel_id: &str, msg_id: &str, limit: u8) -> (r: String)
    ensures
        r@ == spec_messages_page_uri(channel_id@, "before"@, msg_id@, limit),
{
    messages_page_uri(channel_id, "before", msg_id, limit)
}

/// Build the URI that pages messages after an anchor message.
pub fn messages_after_uri(channel_id: &str, msg_id: &str, limit: u8) -> (r: String)
    ensures
        r@ == spec_messages_page_uri(channel_id@, "after"@, msg_id@, limit),
{
    messages_page_uri(channel_id, "after", msg_id, limit)
}

/// URI of the reactions with one emoji on one message; the emoji travels
/// percent-encoded.
pub open spec fn spec_reactions_uri(id: Seq<char>, msg: Seq<char>, emoji: Seq<u8>) -> Seq<
    char,
> {
    spec_message_uri(id, msg) + "/reactions/"@ + encoded_bytes(emoji)
}

/// Build the URI of the reactions with one emoji on one message.
pub fn reactions_uri(channel_id: &str, msg_id: &str, emoji: &str) -> (r: String)
    ensures
        r@ == spec_reactions_uri(channel_id@, msg_id@, emoji.spec_bytes()),
{
    let mut r = message_uri(channel_id, msg_id);
    r.append("/reactions/");
    let e = encode(emoji);
    r.append(e.as_str());
    proof {
        assert(r@ =~= spec_reactions_uri(channel_id@, msg_id@, emoji.spec_bytes()));
    }
    r
}

/// URI of the caller's own reaction with one emoji on one message.
pub open spec fn spec_own_reaction_uri(id: Seq<char>, msg: Seq<char>, emoji: Seq<u8>) -> Seq<
    char,
> {
    spec_reactions_uri(id, msg, emoji) + "/@me"@
}

/// Build the URI of the caller's own reaction on one message.
pub fn own_reaction_uri(channel_id: &str, msg_id: &str, emoji: &str) -> (r: String)
    ensures
        r@ == spec_own_reaction_uri(channel_id@, msg_id@, emoji.spec_bytes()),
{
    let mut r = reactions_uri(channel_id, msg_id, emoji);
    r.append("/@me");
    r
}

/// URI of one user's reaction with one emoji on one message.
pub open spec fn spec_user_reaction_uri(
    id: Seq<char>,
    msg: Seq<char>,
    emoji: Seq<u8>,
    user: Seq<char>,
) -> Seq<char> {
    spec_reactions_uri(id, msg, emoji) + "/"@ + user
}

/// Build the URI of one user's reaction on one message.
pub fn user_reaction_uri(channel_id: &str, msg_id: &str, emoji: &str, user: &str) -> (r:
    String)
    ensures
        r@ == spec_user_reaction_uri(channel_id@, msg_id@, emoji.spec_bytes(), user@),
{
    let mut r = reactions_uri(channel_id, msg_id, emoji);
    r.append("/");
    r.append(user);
    proof {
        assert(r@ =~= spec_user_reaction_uri(channel_id@, msg_id@, emoji.spec_bytes(), user@));
    }
    r
}

/// URI of the whole reaction set of one message.
pub open spec fn spec_all_reactions_uri(id: Seq<char>, msg: Seq<char>) -> Seq<char> {
    spec_message_uri(id, msg) + "/reactions"@
}

/// Build the URI of the whole reaction set of one message.
pub fn all_reactions_uri(channel_id: &str, msg_id: &str) -> (r: String)
    ensures
        r@ == spec_all_reactions_uri(channel_id@, msg_id@),
{
    let mut r = message_uri(channel_id, msg_id);
    r.append("/reactions");
    r
}

/// URI of a channel's bulk message delete operation.
pub open spec fn spec_bulk_delete_uri(id: Seq<char>) -> Seq<char> {
    spec_channel_messages_uri(id) + "/bulk-delete"@
}

/// Build the URI of a channel's bulk message delete operation.
pub fn bulk_delete_uri(channel_id: &str) -> (r: String)
    ensures
        r@ == spec_bulk_delete_uri(channel_id@),
{
    let mut r = channel_messages_uri(channel_id);
    r.append("/bulk-delete");
    r
}

/// URI of a channel's permission overwrites.
pub open spec fn spec_permissions_uri(id: Seq<char>) -> Seq<char> {
    spec_channel_uri(id) + "/permissions/"@
}

/// Build the URI of a channel's permission overwrites.
pub fn permissions_uri(channel_id: &str) -> (r: String)
    ensures
        r@ == spec_permissions_uri(channel_id@),
{
    let mut r = channel_uri(channel_id);
    r.append("/permissions/");
    r
}

/// Rate-limit bucket key shared by every message operation on one channel.
pub open spec fn spec_channel_bucket_key(id: Seq<char>) -> Seq<char> {
    "channels:"@ + id
}

/// Build the rate-limit bucket key of a channel's message operations.
pub fn channel_bucket_key(channel_id: &str) -> (r: String)
    ensures
        r@ == spec_channel_bucket_key(channel_id@),
{
    let mut r = String::from_str("channels:");
    r.append(channel_id);
    r
}

/// Rate-limit bucket key shared by every reaction operation on one channel.
pub open spec fn spec_emoji_bucket_key(id: Seq<char>) -> Seq<char> {
    "channel:"@ + id + ":emoji"@
}

/// Build the rate-limit bucket key of a channel's reaction operations.
pub fn emoji_bucket_key(channel_id: &str) -> (r: String)
    ensures
        r@ == spec_emoji_bucket_key(channel_id@),
{
    let mut r = String::from_str("channel:");
    r.append(channel_id);
    r.append(":emoji");
    proof {
        assert(r@ =~= spec_emoji_bucket_key(channel_id@));
    }
    r
}

/// JSON body that creates or edits a message with the given content.
pub open spec fn spec_message_body(content: Seq<char>) -> Seq<char> {
    "{\"content\":"@ + json_quoted(content) + ",\"tts\":\"false\"}"@
}

/// Build the JSON body that creates or edits a message.
pub fn message_body(content: &str) -> (r: String)
    ensures
        r@ == spec_message_body(content@),
{
    let mut r = String::from_str("{\"content\":");
    let q = json_quote(content);
    r.append(q.as_str());
    r.append(",\"tts\":\"false\"}");
    proof {
        assert(r@ =~= spec_message_body(content@));
    }
    r
}

/// A comma-separated list of JSON string literals, one per identifier.
pub open spec fn spec_id_list(ids: Seq<String>) -> Seq<char>
    decreases ids.len(),
{
    if ids.len() == 0 {
        Seq::empty()
    } else if ids.len() == 1 {
        json_quoted(ids[0]@)
    } else {
        spec_id_list(ids.drop_last()) + seq![','] + json_quoted(ids.last()@)
    }
}

/// JSON body of a bulk message delete.
pub open spec fn spec_bulk_delete_body(ids: Seq<String>) -> Seq<char> {
    "{\"messages\":["@ + spec_id_list(ids) + "]}"@
}

/// Build the JSON body of a bulk message delete.
pub fn bulk_delete_body(ids: &Vec<String>) -> (r: String)
    ensures
        r@ == spec_bulk_delete_body(ids@),
{
    let mut r = String::from_str("{\"messages\":[");
    let mut i: usize = 0;
    while i < ids.len()
        invariant
            i <= ids@.len(),
            r@ =~= "{\"messages\":["@ + spec_id_list(ids@.subrange(0, i as int)),
        decreases ids@.len() - i,
    {
        if i > 0 {
            r.append(",");
            proof {
                reveal_strlit(",");
                assert(","@ =~= seq![',']);
            }
        }
        let q = json_quote(ids[i].as_str());
        r.append(q.as_str());
        proof {
            assert(ids@.subrange(0, i + 1 as int).drop_last() =~= ids@.subrange(0, i as int));
            assert(ids@.subrange(0, i + 1 as int).last() == ids@[i as int]);
            assert(r@ =~= "{\"messages\":["@ + spec_id_list(ids@.subrange(0, i + 1 as int)));
        }
        i = i + 1;
    }
    r.append("]}");
    proof {
        assert(ids@.subrange(0, ids@.len() as int) =~= ids@);
        assert(r@ =~= spec_bulk_delete_body(ids@));
    }
    r
}

} // verus!
