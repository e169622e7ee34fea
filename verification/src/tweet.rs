//! The tweet record and the instruction that publishes one.
//!
//! `send_tweet` is the single state transition this program knows: it takes a
//! freshly allocated, zeroed record, the verified signer's identity, the two
//! text arguments and the chain clock's current value, and either rejects the
//! call (leaving the record untouched) or commits author, timestamp, topic
//! and content in one step.

use vstd::prelude::*;
use vstd::string::StrSliceExecFns;
use crate::layout::MAX_CONTENT_CHARS;
use crate::layout::MAX_CONTENT_LENGTH;
use crate::layout::MAX_TOPIC_CHARS;
use crate::layout::MAX_TOPIC_LENGTH;
use crate::layout::DISCRIMINATOR_LENGTH;
use crate::layout::PUBLIC_KEY_LENGTH;
use crate::layout::STRING_LENGTH_PREFIX;
use crate::layout::TIMESTAMP_LENGTH;

verus! {

broadcast use vstd::array::group_array_axioms;

/// A 32-byte public identity handle, the form in which the host chain names
/// every account and signer.
#[derive(Clone, Copy, PartialEq, Eq, Debug)]
pub struct Pubkey {
    pub bytes: [u8; PUBLIC_KEY_LENGTH],
}

impl Pubkey {
    /// The identity whose handle is the given 32 bytes.
    pub fn new(bytes: [u8; PUBLIC_KEY_LENGTH]) -> (k: Pubkey)
        ensures
            k.bytes == bytes,
    {
        Pubkey { bytes }
    }

    /// True of the all-zero handle, the value a freshly allocated account
    /// holds before anything is written.
    pub open spec fn is_zero(self) -> bool {
        forall|i: int| 0 <= i < PUBLIC_KEY_LENGTH ==> self.bytes@[i] == 0u8
    }
}

/// One published message: the sole record this program stores.  Fields are
/// written exactly once, by `send_tweet`; there is no update path.
#[derive(Debug)]
pub struct Tweet {
    /// The public identity that signed the creation request.
    pub author: Pubkey,
    /// The chain clock's value at creation, UNIX seconds.
    pub timestamp: i64,
    /// Caller-chosen topic, at most `MAX_TOPIC_CHARS` characters.
    pub topic: String,
    /// The message body, at most `MAX_CONTENT_CHARS` characters.
    pub content: String,
}

impl Tweet {
    /// Exact capacity, in bytes, of the storage account that holds one
    /// record: discriminator, author key and timestamp at their fixed
    /// widths, then each text field behind its length prefix, at its
    /// worst-case byte budget.
    pub const LENGTH: usize = DISCRIMINATOR_LENGTH + PUBLIC_KEY_LENGTH + TIMESTAMP_LENGTH
        + STRING_LENGTH_PREFIX + MAX_TOPIC_LENGTH + STRING_LENGTH_PREFIX + MAX_CONTENT_LENGTH;

    /// Both text fields are within the caps that validation enforces.
    pub open spec fn wf(self) -> bool {
        valid_topic(self.topic@) && valid_content(self.content@)
    }

    /// The state of a record slot before anything is written to it.
    pub open spec fn is_zeroed(self) -> bool {
        &&& self.author.is_zero()
        &&& self.timestamp == 0
        &&& self.topic@ == Seq::<char>::empty()
        &&& self.content@ == Seq::<char>::empty()
    }

    /// A record slot as the runtime hands it over: every field zero, both
    /// texts empty.
    pub fn zeroed() -> (t: Tweet)
        ensures
            t.is_zeroed(),
            t.wf(),
    {
        Tweet {
            author: Pubkey { bytes: [0u8; PUBLIC_KEY_LENGTH] },
            timestamp: 0,
            topic: String::new(),
            content: String::new(),
        }
    }
}

/// The account size every conforming storage backend must allocate for one
/// record.  The sum is fixed at build time and never re-computed per call.
pub proof fn lemma_account_length()
    ensures
        Tweet::LENGTH == 1344,
{
}

/// A topic passes validation exactly when its character count (Unicode
/// scalar count, not byte count) is within the cap.
pub open spec fn valid_topic(s: Seq<char>) -> bool {
    s.len() <= MAX_TOPIC_CHARS
}

/// A content passes validation exactly when its character count is within
/// the cap.
pub open spec fn valid_content(s: Seq<char>) -> bool {
    s.len() <= MAX_CONTENT_CHARS
}

/// The two ways a call can be rejected.  Every failure is a permanent
/// rejection of that call's arguments; nothing is retried or recovered.
#[derive(Clone, Copy, PartialEq, Eq, Structural, Debug)]
pub enum ErrorCode {
    /// The topic exceeds `MAX_TOPIC_CHARS` characters.
    TopicTooLong,
    /// The content exceeds `MAX_CONTENT_CHARS` characters.
    ContentTooLong,
}

impl ErrorCode {
    /// The fixed human-readable message attached to this error.
    pub fn message(&self) -> (m: String)
        ensures
            *self is TopicTooLong ==> m@ == "The provided Topic should be 50 Characters long Maximum"@,
            *self is ContentTooLong ==> m@ == "The provided Content should be 280 Characters long Maximum"@,
    {
        match self {
            ErrorCode::TopicTooLong => String::from_str(
                "The provided Topic should be 50 Characters long Maximum",
            ),
            ErrorCode::ContentTooLong => String::from_str(
                "The provided Content should be 280 Characters long Maximum",
            ),
        }
    }
}

/// Everything `send_tweet` touches: the record slot it may write and the
/// identity that signed and funded the call.  The host environment verifies
/// the signature and allocates the slot before the handler runs.
pub struct SendTweet {
    /// The storage slot for the new record, zeroed at allocation.
    pub tweet: Tweet,
    /// The authorizing signer's public identity handle.
    pub author: Pubkey,
}

/// Publish one tweet.
///
/// `now` is the chain clock's value at call time, read by the caller from
/// the clock sysvar.  Validation runs in a fixed order, first failure wins:
/// an over-long topic is rejected as `TopicTooLong`, then an over-long
/// content as `ContentTooLong`, and a rejected call leaves the record slot
/// exactly as it was.  Once both texts pass, every field is committed: the
/// author is the signer's handle -- never a value derived from the text
/// arguments -- the timestamp is `now`, and topic and content are stored
/// unchanged.
pub fn send_tweet(ctx: &mut SendTweet, topic: String, content: String, now: i64) -> (r: Result<
    (),
    ErrorCode,
>)
    ensures
        !valid_topic(topic@) ==> {
            &&& r == Err::<(), ErrorCode>(ErrorCode::TopicTooLong)
            &&& *final(ctx) == *old(ctx)
        },
        valid_topic(topic@) && !valid_content(content@) ==> {
            &&& r == Err::<(), ErrorCode>(ErrorCode::ContentTooLong)
            &&& *final(ctx) == *old(ctx)
        },
        valid_topic(topic@) && valid_content(content@) ==> {
            &&& r == Ok::<(), ErrorCode>(())
            &&& final(ctx).tweet.author == old(ctx).author
            &&& final(ctx).tweet.timestamp == now
            &&& final(ctx).tweet.topic@ == topic@
            &&& final(ctx).tweet.content@ == content@
            &&& final(ctx).tweet.wf()
            &&& final(ctx).author == old(ctx).author
        },
{
    if topic.as_str().unicode_len() > MAX_TOPIC_CHARS {
        return Err(ErrorCode::TopicTooLong);
    }
    if content.as_str().unicode_len() > MAX_CONTENT_CHARS {
        return Err(ErrorCode::ContentTooLong);
    }
    ctx.tweet.author = ctx.author;
    ctx.tweet.timestamp = now;
    ctx.tweet.topic = topic;
    ctx.tweet.content = content;
    Ok(())
}

} // verus!
