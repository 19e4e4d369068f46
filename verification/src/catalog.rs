//! Prompt catalog: the immutable mapping from mode key to system-prompt
//! text. A key outside the catalog resolves to the empty prompt, which
//! callers treat as "proceed without a system role", never as an error.
//! The `qa` mode is accepted by the command handler but carries no catalog
//! text, so it resolves to the empty prompt as well.

use vstd::prelude::*;
use crate::text::str_eq;

verus! {

/// The system prompt that the catalog assigns to `key`: one of the six
/// catalogued texts, or the empty sequence for any other key.
pub open spec fn spec_prompt_for(key: Seq<char>) -> Seq<char> {
    if key == "start"@ {
        "You are a helpful assistant answering questions on Discord."@
    } else if key == "summarize"@ {
        "You are a helpful assistant trained to summarize text in short bullet points. Please always answer in English even if the original text is not in English. Be prepared that you might be asked questions related to the content you summarize."@
    } else if key == "code"@ {
        "You are an experienced software developer trained to review computer source code, explain what it does, identify potential problems, and suggest improvements. Please always answer in English. Be prepared that you might be asked follow-up questions related to the source code."@
    } else if key == "medical"@ {
        "You are a medical doctor trained to read and summarize lab reports. The text you receive will contain medical lab results. Please analyze them and present the major findings as short bullet points, followed by a one-sentence summary about the subject's health status. All answers should be in English. Be prepared to answer follow-up questions related to the lab report."@
    } else if key == "translate"@ {
        "You are an English language translator. For every message you receive, please translate it to English. Please respond with just the English translation and nothing more. If the input message is already in English, please fix any grammar errors and improve the writing."@
    } else if key == "reply_tweet"@ {
        "You are a social media marketing expert. You will receive the text from a tweet. Please generate 3 clever replies to it. Then follow user suggestions to improve the reply tweets."@
    } else {
        Seq::<char>::empty()
    }
}

/// Looks `key` up in the prompt catalog; an unknown key degrades to the
/// empty prompt rather than failing.
pub fn prompt_for_key(key: &str) -> (p: String)
    ensures
        p@ == spec_prompt_for(key@),
{
    if str_eq(key, "start") {
        String::from_str("You are a helpful assistant answering questions on Discord.")
    } else if str_eq(key, "summarize") {
        String::from_str(
            "You are a helpful assistant trained to summarize text in short bullet points. Please always answer in English even if the original text is not in English. Be prepared that you might be asked questions related to the content you summarize.",
        )
    } else if str_eq(key, "code") {
        String::from_str(
            "You are an experienced software developer trained to review computer source code, explain what it does, identify potential problems, and suggest improvements. Please always answer in English. Be prepared that you might be asked follow-up questions related to the source code.",
        )
    } else if str_eq(key, "medical") {
        String::from_str(
            "You are a medical doctor trained to read and summarize lab reports. The text you receive will contain medical lab results. Please analyze them and present the major findings as short bullet points, followed by a one-sentence summary about the subject's health status. All answers should be in English. Be prepared to answer follow-up questions related to the lab report.",
        )
    } else if str_eq(key, "translate") {
        String::from_str(
            "You are an English language translator. For every message you receive, please translate it to English. Please respond with just the English translation and nothing more. If the input message is already in English, please fix any grammar errors and improve the writing.",
        )
    } else if str_eq(key, "reply_tweet") {
        String::from_str(
            "You are a social media marketing expert. You will receive the text from a tweet. Please generate 3 clever replies to it. Then follow user suggestions to improve the reply tweets.",
        )
    } else {
        String::new()
    }
}

} // verus!
