use solana_twitter::ErrorCode;
use solana_twitter::Pubkey;
use solana_twitter::SendTweet;
use solana_twitter::Tweet;
use solana_twitter::send_tweet;

fn fresh_ctx(author_byte: u8) -> SendTweet {
    SendTweet {
        tweet: Tweet::zeroed(),
        author: Pubkey::new([author_byte; 32]),
    }
}

fn assert_slot_zeroed(t: &Tweet) {
    assert_eq!(t.author.bytes, [0u8; 32]);
    assert_eq!(t.timestamp, 0);
    assert_eq!(t.topic, "");
    assert_eq!(t.content, "");
}

#[test]
fn succeeds_at_both_caps() {
    let mut ctx = fresh_ctx(7);
    let topic = "x".repeat(50);
    let content = "y".repeat(280);
    let r = send_tweet(&mut ctx, topic.clone(), content.clone(), 1_700_000_000);
    assert_eq!(r, Ok(()));
    assert_eq!(ctx.tweet.author.bytes, [7u8; 32]);
    assert_eq!(ctx.tweet.timestamp, 1_700_000_000);
    assert_eq!(ctx.tweet.topic, topic);
    assert_eq!(ctx.tweet.content, content);
}

#[test]
fn succeeds_on_empty_texts() {
    let mut ctx = fresh_ctx(1);
    let r = send_tweet(&mut ctx, String::new(), String::new(), 5);
    assert_eq!(r, Ok(()));
    assert_eq!(ctx.tweet.author.bytes, [1u8; 32]);
    assert_eq!(ctx.tweet.timestamp, 5);
    assert_eq!(ctx.tweet.topic, "");
    assert_eq!(ctx.tweet.content, "");
}

#[test]
fn topic_of_51_characters_is_rejected() {
    let mut ctx = fresh_ctx(9);
    let topic = "x".repeat(51);
    let r = send_tweet(&mut ctx, topic, "hello".to_string(), 123);
    assert_eq!(r, Err(ErrorCode::TopicTooLong));
    assert_slot_zeroed(&ctx.tweet);
    assert_eq!(ctx.author.bytes, [9u8; 32]);
}

#[test]
fn content_of_281_characters_is_rejected() {
    let mut ctx = fresh_ctx(9);
    let content = "y".repeat(281);
    let r = send_tweet(&mut ctx, "a valid topic".to_string(), content, 123);
    assert_eq!(r, Err(ErrorCode::ContentTooLong));
    assert_slot_zeroed(&ctx.tweet);
}

#[test]
fn over_long_topic_wins_over_over_long_content() {
    let mut ctx = fresh_ctx(2);
    let topic = "x".repeat(51);
    let content = "y".repeat(281);
    let r = send_tweet(&mut ctx, topic, content, 123);
    assert_eq!(r, Err(ErrorCode::TopicTooLong));
    assert_slot_zeroed(&ctx.tweet);
}

#[test]
fn topic_is_measured_in_characters_not_bytes() {
    // 50 four-byte emoji: 200 bytes, yet exactly 50 characters.
    let mut ctx = fresh_ctx(3);
    let topic = "\u{1F680}".repeat(50);
    assert!(topic.len() > 50);
    assert_eq!(topic.chars().count(), 50);
    let r = send_tweet(&mut ctx, topic.clone(), "liftoff".to_string(), 9);
    assert_eq!(r, Ok(()));
    assert_eq!(ctx.tweet.topic, topic);
}

#[test]
fn fifty_one_multibyte_characters_are_rejected() {
    let mut ctx = fresh_ctx(3);
    let topic = "\u{1F680}".repeat(51);
    let r = send_tweet(&mut ctx, topic, String::new(), 9);
    assert_eq!(r, Err(ErrorCode::TopicTooLong));
    assert_slot_zeroed(&ctx.tweet);
}

#[test]
fn timestamp_follows_the_injected_clock() {
    for now in [i64::MIN, -1, 0, 1, i64::MAX] {
        let mut ctx = fresh_ctx(4);
        let r = send_tweet(&mut ctx, "t".to_string(), "c".to_string(), now);
        assert_eq!(r, Ok(()));
        assert_eq!(ctx.tweet.timestamp, now);
    }
}

#[test]
fn author_is_the_signer_not_the_text() {
    let mut first = fresh_ctx(10);
    let mut second = fresh_ctx(200);
    let topic = "same topic".to_string();
    let content = "same content".to_string();
    assert_eq!(send_tweet(&mut first, topic.clone(), content.clone(), 1), Ok(()));
    assert_eq!(send_tweet(&mut second, topic, content, 1), Ok(()));
    assert_eq!(first.tweet.author.bytes, [10u8; 32]);
    assert_eq!(second.tweet.author.bytes, [200u8; 32]);
    assert_eq!(first.tweet.author, first.author);
    assert_eq!(second.tweet.author, second.author);
}
