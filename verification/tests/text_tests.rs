//! Text utilities: percent-encoding, token normalization, decimal
//! rendering, and the URI / bucket-key / body builders.

use panda::text::{
    all_reactions_uri, base_url, bulk_delete_body, bulk_delete_uri, channel_bucket_key,
    channel_messages_uri, channel_uri, emoji_bucket_key, encode, message_body, message_uri,
    messages_after_uri, messages_around_uri, messages_before_uri, normalize_token,
    own_reaction_uri, permissions_uri, reactions_uri, single_message_uri, u64_to_string,
    user_reaction_uri,
};

#[test]
fn encode_passes_unreserved_bytes_through() {
    assert_eq!(encode("AZaz09-_.~"), "AZaz09-_.~");
}

#[test]
fn encode_escapes_reserved_bytes() {
    assert_eq!(encode("a b"), "a%20b");
    assert_eq!(encode("100%"), "100%25");
    assert_eq!(encode("/@:"), "%2F%40%3A");
}

#[test]
fn encode_escapes_every_utf8_byte_of_a_symbol() {
    // One three-byte character becomes three escapes.
    assert_eq!(encode("\u{2764}"), "%E2%9D%A4");
}

#[test]
fn encode_of_empty_is_empty() {
    assert_eq!(encode(""), "");
}

#[test]
fn normalize_token_adds_missing_prefix() {
    assert_eq!(normalize_token("abc123"), "Bot abc123");
    assert_eq!(normalize_token(""), "Bot ");
}

#[test]
fn normalize_token_keeps_existing_prefix() {
    assert_eq!(normalize_token("Bot abc123"), "Bot abc123");
    assert_eq!(normalize_token("Bot "), "Bot ");
}

#[test]
fn u64_renders_in_decimal() {
    assert_eq!(u64_to_string(0), "0");
    assert_eq!(u64_to_string(7), "7");
    assert_eq!(u64_to_string(1234), "1234");
    assert_eq!(u64_to_string(u64::MAX), "18446744073709551615");
}

#[test]
fn channel_uris_join_base_and_id() {
    assert_eq!(base_url(), "https://discord.com/api/v6");
    assert_eq!(channel_uri("42"), "https://discord.com/api/v6/channels/42");
    assert_eq!(
        channel_messages_uri("42"),
        "https://discord.com/api/v6/channels/42/messages"
    );
    assert_eq!(
        message_uri("42", "7"),
        "https://discord.com/api/v6/channels/42/messages/7"
    );
    assert_eq!(
        single_message_uri("42", "7"),
        "https://discord.com/api/v6/channel/42/messages/7"
    );
}

#[test]
fn paging_uris_carry_filter_anchor_and_limit() {
    assert_eq!(
        messages_around_uri("42", "7", 50),
        "https://discord.com/api/v6/channels/42/messages?around=7&limit=50"
    );
    assert_eq!(
        messages_before_uri("42", "7", 1),
        "https://discord.com/api/v6/channels/42/messages?before=7&limit=1"
    );
    assert_eq!(
        messages_after_uri("42", "7", 100),
        "https://discord.com/api/v6/channels/42/messages?after=7&limit=100"
    );
}

#[test]
fn reaction_uris_percent_encode_the_emoji() {
    assert_eq!(
        reactions_uri("42", "7", "\u{2764}"),
        "https://discord.com/api/v6/channels/42/messages/7/reactions/%E2%9D%A4"
    );
    assert_eq!(
        own_reaction_uri("42", "7", "\u{2764}"),
        "https://discord.com/api/v6/channels/42/messages/7/reactions/%E2%9D%A4/@me"
    );
    assert_eq!(
        user_reaction_uri("42", "7", "\u{2764}", "99"),
        "https://discord.com/api/v6/channels/42/messages/7/reactions/%E2%9D%A4/99"
    );
    assert_eq!(
        all_reactions_uri("42", "7"),
        "https://discord.com/api/v6/channels/42/messages/7/reactions"
    );
}

#[test]
fn bulk_delete_and_permissions_uris() {
    assert_eq!(
        bulk_delete_uri("42"),
        "https://discord.com/api/v6/channels/42/messages/bulk-delete"
    );
    assert_eq!(
        permissions_uri("42"),
        "https://discord.com/api/v6/channels/42/permissions/"
    );
}

#[test]
fn bucket_keys_share_a_channel_prefix() {
    assert_eq!(channel_bucket_key("42"), "channels:42");
    assert_eq!(emoji_bucket_key("42"), "channel:42:emoji");
}

#[test]
fn message_body_quotes_the_content() {
    assert_eq!(message_body("hi"), "{\"content\":\"hi\",\"tts\":\"false\"}");
}

#[test]
fn message_body_escapes_through_the_json_codec() {
    // A quote and a newline in the content must come out escaped; the body
    // would be malformed if the content were pasted in unchanged.
    assert_eq!(
        message_body("a\"b\nc"),
        "{\"content\":\"a\\\"b\\nc\",\"tts\":\"false\"}"
    );
}

#[test]
fn bulk_delete_body_lists_quoted_ids() {
    assert_eq!(bulk_delete_body(&vec![]), "{\"messages\":[]}");
    assert_eq!(
        bulk_delete_body(&vec!["1".to_string()]),
        "{\"messages\":[\"1\"]}"
    );
    assert_eq!(
        bulk_delete_body(&vec!["1".to_string(), "2".to_string(), "3".to_string()]),
        "{\"messages\":[\"1\",\"2\",\"3\"]}"
    );
}
