//! A content agent: a persona prompt together with the decisions the bot
//! makes around its language model.  The model itself is called outside this
//! crate; the agent classifies the model's answers and assembles the exact
//! prompt texts that are sent to it.

use vstd::prelude::*;
use vstd::string::StringExecFns;

use crate::text::{contains_ci, contains_cs, contains_str, contains_str_ci};

verus! {

/// Whether an inbound post deserves an answer.
#[derive(Debug, PartialEq, Eq, Structural)]
pub enum ResponseDecision {
    Respond,
    Ignore,
}

/// The marker that the model is instructed to put into a positive answer.
pub open spec fn respond_marker() -> Seq<char> {
    "[RESPOND]"@
}

/// How a model answer is read: it counts as a decision to respond exactly
/// when it contains the marker, matched without regard to ASCII case.
/// Anything else, the empty answer included, counts as a decision to ignore.
pub open spec fn spec_classify(answer: Seq<char>) -> ResponseDecision {
    if contains_ci(answer, respond_marker()) {
        ResponseDecision::Respond
    } else {
        ResponseDecision::Ignore
    }
}

/// The handle that mentions of the bot in a chat message are searched for.
pub open spec fn bot_handle() -> Seq<char> {
    "@rina_rig_bot"@
}

/// A persona bound to the completion model.
pub struct Agent {
    prompt: String,
}

impl Agent {
    /// The persona text this agent was built with.
    pub closed spec fn persona(&self) -> Seq<char> {
        self.prompt@
    }

    pub fn new(prompt: &str) -> (agent: Agent)
        ensures
            agent.persona() == prompt@,
    {
        Agent { prompt: prompt.to_owned() }
    }

    /// The persona text, for handing to the completion model as preamble.
    pub fn prompt_text(&self) -> (p: &str)
        ensures
            p@ == self.persona(),
    {
        self.prompt.as_str()
    }

    /// Read the model's answer to a classification prompt.
    pub fn classify_response(&self, answer: &str) -> (decision: ResponseDecision)
        ensures
            decision == spec_classify(answer@),
    {
        if contains_str_ci(answer, "[RESPOND]") {
            ResponseDecision::Respond
        } else {
            ResponseDecision::Ignore
        }
    }

    /// The prompt that asks the model to classify an inbound post.
    pub fn classification_prompt(&self, tweet: &str) -> (p: String)
        ensures
            p@ == spec_classification_prompt(tweet@),
    {
        let mut p = String::from_str("Tweet: ");
        p.append(tweet);
        p.append(
            "\nTask: Reply [RESPOND] or [IGNORE] based on:\n[RESPOND] if:\n- Direct mention/address\n- Contains question\n- Contains command/request\n[IGNORE] if:\n- Unrelated content\n- Spam/nonsensical\nAnswer:",
        );
        p
    }

    /// The prompt that asks the model for a reply to an inbound post.
    pub fn reply_prompt(&self, tweet: &str) -> (p: String)
        ensures
            p@ == spec_reply_prompt(tweet@),
    {
        let mut p = String::from_str(
            "Task: Generate a post/reply in your voice, style and perspective while using this as context:\nCurrent Post: '",
        );
        p.append(tweet);
        p.append(
            "'\nGenerate a brief, single response that:\n- Uses all lowercase\n- Avoids punctuation\n- Is direct and possibly sarcastic\n- Stays under 280 characters\nWrite only the response text, nothing else:",
        );
        p
    }

    /// The prompt that asks the model for a standalone post.
    pub fn post_prompt(&self) -> (p: String)
        ensures
            p@ == spec_post_prompt(),
    {
        String::from_str(
            "# Task: Write a Social Media Post\nWrite a 1-3 sentence post that would be engaging to readers. Keep it casual and friendly in tone. Stay under 280 characters.\n\nRequirements:\n- Write only the post content, no additional commentary\n- No emojis\n- No hashtags\n- No questions\n- No introductory phrases or meta-commentary\n- Brief, concise statements only\n- Focus on personal experiences, observations, or thoughts",
        )
    }

    /// The prompt that asks the model for a conversational chat reply.
    pub fn chat_prompt(&self, message: &str) -> (p: String)
        ensures
            p@ == spec_chat_prompt(message@),
    {
        let mut p = String::from_str(
            "Task: Generate a conversational reply to this Telegram message while using this as context:\nMessage: '",
        );
        p.append(message);
        p.append(
            "'\nGenerate a natural response that:\n- Is friendly and conversational\n- Can use normal punctuation and capitalization\n- May include emojis when appropriate\n- Maintains a helpful and engaging tone\n- Keeps responses concise but not artificially limited\nWrite only the response text, nothing else:",
        );
        p
    }
}

pub open spec fn spec_classification_prompt(tweet: Seq<char>) -> Seq<char> {
    "Tweet: "@ + tweet
        + "\nTask: Reply [RESPOND] or [IGNORE] based on:\n[RESPOND] if:\n- Direct mention/address\n- Contains question\n- Contains command/request\n[IGNORE] if:\n- Unrelated content\n- Spam/nonsensical\nAnswer:"@
}

pub open spec fn spec_reply_prompt(tweet: Seq<char>) -> Seq<char> {
    "Task: Generate a post/reply in your voice, style and perspective while using this as context:\nCurrent Post: '"@
        + tweet
        + "'\nGenerate a brief, single response that:\n- Uses all lowercase\n- Avoids punctuation\n- Is direct and possibly sarcastic\n- Stays under 280 characters\nWrite only the response text, nothing else:"@
}

pub open spec fn spec_post_prompt() -> Seq<char> {
    "# Task: Write a Social Media Post\nWrite a 1-3 sentence post that would be engaging to readers. Keep it casual and friendly in tone. Stay under 280 characters.\n\nRequirements:\n- Write only the post content, no additional commentary\n- No emojis\n- No hashtags\n- No questions\n- No introductory phrases or meta-commentary\n- Brief, concise statements only\n- Focus on personal experiences, observations, or thoughts"@
}

pub open spec fn spec_chat_prompt(message: Seq<char>) -> Seq<char> {
    "Task: Generate a conversational reply to this Telegram message while using this as context:\nMessage: '"@
        + message
        + "'\nGenerate a natural response that:\n- Is friendly and conversational\n- Can use normal punctuation and capitalization\n- May include emojis when appropriate\n- Maintains a helpful and engaging tone\n- Keeps responses concise but not artificially limited\nWrite only the response text, nothing else:"@
}

/// What `str::trim` returns: the text with its leading and trailing
/// whitespace removed, a function of the characters alone.
pub uninterp spec fn trimmed(s: Seq<char>) -> Seq<char>;

/// Relies on str::trim: the result is the input without leading and
/// trailing whitespace, and depends on the input alone.
#[verifier::external_body]
fn trim_text(s: &str) -> (r: String)
    ensures
        r@ == trimmed(s@),
{
    s.trim().to_owned()
}

/// Put a generated text into its published form: whitespace around it goes,
/// nothing else is touched.
pub fn finalize_model_text(answer: &str) -> (r: String)
    ensures
        r@ == trimmed(answer@),
{
    trim_text(answer)
}

/// Whether a chat message is answered at all: private conversations always
/// are, group messages only when they mention the bot by its handle.
pub open spec fn spec_should_relay(is_private: bool, text: Seq<char>) -> bool {
    is_private || contains_cs(text, bot_handle())
}

/// Decide whether to answer a chat message.
pub fn should_relay(is_private: bool, text: &str) -> (r: bool)
    ensures
        r == spec_should_relay(is_private, text@),
{
    is_private || contains_str(text, "@rina_rig_bot")
}

/// Any answer without the marker is ignored; this holds in particular of an
/// empty or malformed answer, which is never mistaken for a decision to
/// respond.
pub proof fn lemma_unmarked_answer_ignored(answer: Seq<char>)
    requires
        !contains_ci(answer, respond_marker()),
    ensures
        spec_classify(answer) == ResponseDecision::Ignore,
{
}

/// The empty answer in particular carries no marker and is ignored.
pub proof fn lemma_empty_answer_ignored()
    ensures
        spec_classify(Seq::<char>::empty()) == ResponseDecision::Ignore,
{
    reveal_strlit("[RESPOND]");
    assert forall|i: int| !crate::text::match_at(
        Seq::<char>::empty(),
        respond_marker(),
        i,
        true,
    ) by {
        assert(respond_marker().len() == 9);
    }
}

} // verus!
