//! Input assembler, decision part: classifying attachments, stripping the
//! leading mention token, choosing the page-fetch path of the `summarize`
//! mode, truncating fetched page text, and concatenating the texts that the
//! attachment collaborators produced. The downloads, the character
//! recognition and the page fetch themselves are the caller's business; this
//! module only decides and combines.

use vstd::prelude::*;
use crate::text::spec_trim;
use crate::text::str_eq;
use crate::text::str_starts_with;
use crate::text::trim_blank;

verus! {

/// Character budget of a fetched page in `summarize` mode; text beyond it
/// is cut off before the language-model call.
pub const SUMMARY_CHAR_BUDGET: usize = 36000;

/// One attachment of an incoming message, as the platform declares it: its
/// download address and its declared content type, if any.
pub struct AttachmentInfo {
    pub url: String,
    pub content_type: Option<String>,
}

impl View for AttachmentInfo {
    type V = (Seq<char>, Option<Seq<char>>);

    open spec fn view(&self) -> (Seq<char>, Option<Seq<char>>) {
        (self.url@, self.content_type.deep_view())
    }
}

impl DeepView for AttachmentInfo {
    type V = (Seq<char>, Option<Seq<char>>);

    open spec fn deep_view(&self) -> (Seq<char>, Option<Seq<char>>) {
        self@
    }
}

/// How one declared content type is handled: `Some(false)` downloads the
/// attachment for character recognition (an image), `Some(true)` downloads
/// it as plain text, `None` ignores the attachment.
pub open spec fn spec_classify_one(ct: Option<Seq<char>>) -> Option<bool> {
    match ct {
        Some(t) => if "image"@.is_prefix_of(t) {
            Some(false)
        } else if "text"@.is_prefix_of(t) {
            Some(true)
        } else {
            None
        },
        None => None,
    }
}

/// The download sources of a message's attachments, in order: each kept
/// attachment's address paired with whether it is plain text.
pub open spec fn spec_classify(atts: Seq<(Seq<char>, Option<Seq<char>>)>) -> Seq<
    (Seq<char>, bool),
>
    decreases atts.len(),
{
    if atts.len() == 0 {
        Seq::empty()
    } else {
        let rest = spec_classify(atts.drop_last());
        match spec_classify_one(atts.last().1) {
            Some(is_text) => rest.push((atts.last().0, is_text)),
            None => rest,
        }
    }
}

/// Selects the attachments worth downloading: those whose declared content
/// type begins with `image` (to be read by character recognition) or with
/// `text` (to be used verbatim); everything else is ignored.
pub fn get_attachments(attachments: &Vec<AttachmentInfo>) -> (sources: Vec<(String, bool)>)
    ensures
        sources.deep_view() == spec_classify(attachments.deep_view()),
{
    let mut sources: Vec<(String, bool)> = Vec::new();
    let mut i: usize = 0;
    while i < attachments.len()
        invariant
            0 <= i <= attachments.len(),
            sources.deep_view() =~= spec_classify(attachments.deep_view().take(i as int)),
        decreases attachments.len() - i,
    {
        let ghost prefix = attachments.deep_view().take(i as int);
        let a = &attachments[i];
        match &a.content_type {
            Some(ct) => {
                if str_starts_with(ct.as_str(), "image") {
                    sources.push((a.url.clone(), false));
                } else if str_starts_with(ct.as_str(), "text") {
                    sources.push((a.url.clone(), true));
                }
            },
            None => {},
        }
        proof {
            let next = attachments.deep_view().take(i + 1);
            assert(next.drop_last() =~= prefix);
            assert(next.last() == attachments.deep_view()[i as int]);
            assert(sources.deep_view() =~= spec_classify(next));
        }
        i = i + 1;
    }
    proof {
        assert(attachments.deep_view().take(attachments@.len() as int)
            =~= attachments.deep_view());
    }
    sources
}

/// `s` with everything up to and including the first space removed; the
/// empty sequence when `s` has no space.
pub open spec fn spec_drop_through_space(s: Seq<char>) -> Seq<char>
    decreases s.len(),
{
    if s.len() == 0 {
        s
    } else if s[0] == ' ' {
        s.drop_first()
    } else {
        spec_drop_through_space(s.drop_first())
    }
}

/// Message text with a leading mention token removed: when the text begins
/// with `@`, everything up to and including the first space goes; other
/// text is kept as it is.
pub open spec fn spec_strip_mention(s: Seq<char>) -> Seq<char> {
    if s.len() > 0 && s[0] == '@' {
        spec_drop_through_space(s)
    } else {
        s
    }
}

proof fn lemma_drop_through_space_skip(s: Seq<char>, i: int)
    requires
        0 <= i <= s.len(),
        forall|j: int| 0 <= j < i ==> s[j] != ' ',
    ensures
        spec_drop_through_space(s) == spec_drop_through_space(s.skip(i)),
    decreases i,
{
    if i > 0 {
        assert(s.len() > 0 && s[0] != ' ');
        assert(s.drop_first() =~= s.skip(1));
        lemma_drop_through_space_skip(s.skip(1), i - 1);
        assert(s.skip(1).skip(i - 1) =~= s.skip(i));
    } else {
        assert(s.skip(0) =~= s);
    }
}

/// Removes a leading `@mention` token from message text, as
/// [`spec_strip_mention`] describes it.
pub fn strip_mention(content: &str) -> (r: String)
    ensures
        r@ == spec_strip_mention(content@),
{
    let len = content.unicode_len();
    if len == 0 || content.get_char(0) != '@' {
        return content.to_owned();
    }
    let mut i: usize = 0;
    while i < len && content.get_char(i) != ' '
        invariant
            len == content@.len(),
            0 <= i <= len,
            forall|j: int| 0 <= j < i ==> content@[j] != ' ',
        decreases len - i,
    {
        i = i + 1;
    }
    proof {
        lemma_drop_through_space_skip(content@, i as int);
    }
    if i < len {
        let rest = content.substring_char(i + 1, len);
        proof {
            let t = content@.skip(i as int);
            assert(t[0] == content@[i as int]);
            assert(t.drop_first() =~= content@.subrange(i + 1, len as int));
        }
        rest.to_owned()
    } else {
        proof {
            assert(content@.skip(len as int).len() == 0);
        }
        String::new()
    }
}

/// Cuts `text` down to its first `max` characters; shorter text is kept
/// whole.
pub fn truncate_chars(text: &str, max: usize) -> (r: String)
    ensures
        r@ == if text@.len() <= max {
            text@
        } else {
            text@.take(max as int)
        },
{
    let len = text.unicode_len();
    if len <= max {
        text.to_owned()
    } else {
        text.substring_char(0, max).to_owned()
    }
}

pub uninterp spec fn spec_uri_ok(s: Seq<char>) -> bool;

/// Relies on `http_req::uri::Uri::try_from`: whether `s` parses as a URI
/// is a function of `s` alone. That parser slices its input at byte
/// offsets near separators, which can fall inside a multi-byte character,
/// so only ASCII input is handed to it.
#[verifier::external_body]
fn uri_parses(s: &str) -> (r: bool)
    requires
        s.is_ascii(),
    ensures
        r == spec_uri_ok(s@),
{
    http_req::uri::Uri::try_from(s).is_ok()
}

/// The address that `summarize` mode fetches instead of treating the
/// message as plain text: the trimmed message, when the active mode is
/// `summarize` and the trimmed message is an ASCII URI.
pub open spec fn spec_summarize_url(prompt_key: Seq<char>, input: Seq<char>) -> Option<Seq<char>> {
    if prompt_key == "summarize"@ && vstd::utf8::is_ascii_chars(spec_trim(input)) && spec_uri_ok(
        spec_trim(input),
    ) {
        Some(spec_trim(input))
    } else {
        None
    }
}

/// Decides the page-fetch path of `summarize` mode: returns the address to
/// fetch, or `None` when the message is to be used as plain text. The
/// caller fetches the page and passes the text through [`truncate_chars`]
/// with [`SUMMARY_CHAR_BUDGET`].
pub fn summarize_url(prompt_key: &str, input: &str) -> (r: Option<String>)
    ensures
        r is Some == spec_summarize_url(prompt_key@, input@) is Some,
        r matches Some(u) ==> u@ == spec_trim(input@),
{
    if !str_eq(prompt_key, "summarize") {
        return None;
    }
    let trimmed = trim_blank(input);
    if trimmed.is_ascii() && uri_parses(trimmed.as_str()) {
        Some(trimmed)
    } else {
        None
    }
}

/// The question assembled from per-attachment results, in order: each
/// successfully produced text followed by a line break; failed attachments
/// contribute nothing.
pub open spec fn spec_assemble(parts: Seq<Option<Seq<char>>>) -> Seq<char>
    decreases parts.len(),
{
    if parts.len() == 0 {
        Seq::empty()
    } else {
        spec_assemble(parts.drop_last()) + match parts.last() {
            Some(t) => t + "\n"@,
            None => Seq::<char>::empty(),
        }
    }
}

/// Concatenates the texts that the attachment collaborators produced, one
/// line per successful attachment; a failed attachment (`None`) is skipped
/// and the remaining attachments still contribute.
pub fn assemble_question(parts: &Vec<Option<String>>) -> (q: String)
    ensures
        q@ == spec_assemble(parts.deep_view()),
{
    let mut q = String::new();
    let mut i: usize = 0;
    while i < parts.len()
        invariant
            0 <= i <= parts.len(),
            q@ == spec_assemble(parts.deep_view().take(i as int)),
        decreases parts.len() - i,
    {
        let ghost prefix = parts.deep_view().take(i as int);
        match &parts[i] {
            Some(t) => {
                q.append(t.as_str());
                q.append("\n");
            },
            None => {},
        }
        proof {
            let next = parts.deep_view().take(i + 1);
            assert(next.drop_last() =~= prefix);
            assert(next.last() == parts.deep_view()[i as int]);
        }
        i = i + 1;
    }
    proof {
        assert(parts.deep_view().take(parts@.len() as int) =~= parts.deep_view());
    }
    q
}

/// Whether an incoming message carries anything to work on: a message with
/// no attachment whose text is all blank is dropped without a reply.
pub fn message_is_empty(attachment_count: usize, content: &str) -> (r: bool)
    ensures
        r == (attachment_count == 0 && spec_trim(content@).len() == 0),
{
    if attachment_count != 0 {
        return false;
    }
    let trimmed = trim_blank(content);
    trimmed.as_str().is_empty()
}

} // verus!
