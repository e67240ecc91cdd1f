//! Prompt construction and response classification for the text polisher.
//!
//! The polisher sends one prompt to a remote language model and takes the
//! first candidate's text back.  Everything except the HTTP round trip is
//! verified here: the exact prompt text, the classification of each
//! attempt's outcome for the retry policy, and the mapping of the final
//! failure message onto the library's error type.  The application shell
//! performs the request, extracts the candidate text from the response
//! body, and hands the outcome in as a plain value.

use vstd::prelude::*;
use vstd::string::StringExecFns;
use crate::errors::CoreError;
use crate::retry::HttpResult;
use crate::textops::{
    dec_digits, has_prefix, is_blank, str_equal, str_is_blank, str_starts_with, trim_str, trimmed,
    u64_to_string,
};

verus! {

/// Opens the context section of the prompt, before the caller's context.
pub const CONTEXT_SECTION_OPENING: &'static str =
    "\n\nContext about where this text will be used:\n";

/// Closes the context section, after the caller's context: the guidance on
/// adapting tone and format to the target application.
pub const CONTEXT_SECTION_GUIDELINES: &'static str =
    "\nAdapt the tone, format and style to match the target application.\n- Chat/messaging apps (Slack, Teams, iMessage): keep it casual and concise\n- Email (Gmail, Outlook): use standard email structure (greeting line, body, sign-off), format phone numbers and addresses properly, preserve the sender's greeting style (e.g., \"Hi\" stays casual, don't upgrade to \"Dear\")\n- Code editors: preserve technical terms and formatting\n- Social media: follow platform conventions\nIMPORTANT: Match the speaker's original level of formality — do NOT make casual speech overly formal.\n";

/// The fixed opening of the polishing prompt: role and rules.
pub const PROMPT_RULES: &'static str =
    "You are a professional text editor. Transform the following speech transcript into well-structured written text.\n\nRules:\n1. Keep the SAME language as the original - do NOT translate\n2. Convert spoken language to written language:\n   - Remove filler words (e.g., \"um\", \"uh\", \"like\", \"you know\", or equivalents in other languages)\n   - Clean up spoken-language patterns: remove filler words and fix grammar errors, but preserve the speaker's original sentence structure and phrasing choices. NEVER rewrite sentences into different forms.\n   - Fix transcription errors (misheard words, typos)\n   - Handle self-corrections: when the speaker changes their mind (e.g., \"let's meet at 7, actually make it 3\"), keep ONLY the final intention and remove the corrected content\n3. Reorganize content logically:\n   - Group related information together\n   - Separate different topics into paragraphs with blank lines\n4. When content contains multiple parallel points, requirements, or items, ALWAYS format them as a numbered or bulleted list — NEVER as separate paragraphs. Example:\n   BAD: \"First issue is performance. Second issue is UI complexity.\"\n   GOOD: \"Issues encountered:\\n1. Performance bottlenecks\\n2. UI complexity\"\n5. Preserve ALL substantive information - only remove verbal fillers, not actual content\n6. Add proper punctuation and spacing\n7. Output ONLY the final polished text - no comments or annotations\n";

/// Introduces the transcript, between the context section and the raw text.
pub const PROMPT_TRANSCRIPT_HEADER: &'static str = "\nOriginal transcript:\n";

/// Ends the prompt, after the raw text.
pub const PROMPT_CLOSING: &'static str = "\n\nOutput the polished text directly.";

/// The context section for a given context: empty when there is none or
/// it is blank, otherwise the context wrapped in the section's opening and
/// guidelines.
pub open spec fn context_section_spec(context: Option<Seq<char>>) -> Seq<char> {
    match context {
        Some(ctx) => if is_blank(ctx) {
            Seq::empty()
        } else {
            CONTEXT_SECTION_OPENING@ + ctx + CONTEXT_SECTION_GUIDELINES@
        },
        None => Seq::empty(),
    }
}

/// The complete polishing prompt: the rules, the context section, the
/// transcript header, the raw text, and the closing instruction.
pub open spec fn prompt_spec(raw_text: Seq<char>, context: Option<Seq<char>>) -> Seq<char> {
    PROMPT_RULES@ + context_section_spec(context) + PROMPT_TRANSCRIPT_HEADER@ + raw_text
        + PROMPT_CLOSING@
}

/// View of an optional borrowed string, for stating the contracts.
pub open spec fn opt_view(context: Option<&str>) -> Option<Seq<char>> {
    match context {
        Some(c) => Some(c@),
        None => None,
    }
}

/// Build the context section of the prompt: empty if no context was given
/// or it is whitespace only, otherwise the formatted section with the
/// usage guidelines around the context.
pub fn build_context_section(context: Option<&str>) -> (r: String)
    ensures
        r@ == context_section_spec(opt_view(context)),
{
    match context {
        Some(ctx) => {
            if str_is_blank(ctx) {
                String::new()
            } else {
                let mut r = String::from_str(CONTEXT_SECTION_OPENING);
                r.append(ctx);
                r.append(CONTEXT_SECTION_GUIDELINES);
                r
            }
        }
        None => String::new(),
    }
}

/// Build the complete polishing prompt for the raw transcript and the
/// optional usage context.
pub fn build_prompt(raw_text: &str, context: Option<&str>) -> (r: String)
    ensures
        r@ == prompt_spec(raw_text@, opt_view(context)),
{
    let context_section = build_context_section(context);
    let mut r = String::from_str(PROMPT_RULES);
    r.append(context_section.as_str());
    r.append(PROMPT_TRANSCRIPT_HEADER);
    r.append(raw_text);
    r.append(PROMPT_CLOSING);
    r
}

/// What one attempt against the language model yielded, as the application
/// shell reports it: a parsed 200 response with the first candidate's
/// first text part (if the response carried one), a 200 response whose
/// body could not be parsed, another status, or a transport failure.
#[derive(Debug, PartialEq, Eq)]
pub enum LlmAttemptOutcome {
    ResponseText(Option<String>),
    ParseFailure(String),
    HttpStatus(u16),
    NetworkFailure,
}

/// The classification the polisher owes for each attempt outcome.
pub open spec fn polish_classification_spec(outcome: LlmAttemptOutcome, r: HttpResult<String>)
    -> bool {
    match outcome {
        LlmAttemptOutcome::ResponseText(t) => match t {
            Some(text) => if is_blank(text@) {
                r matches HttpResult::NonRetryable(m) && m@ == "Empty response"@
            } else {
                r matches HttpResult::Success(s) && s@ == trimmed(text@)
            },
            None => r matches HttpResult::NonRetryable(m) && m@ == "Empty response"@,
        },
        LlmAttemptOutcome::ParseFailure(e) => r == HttpResult::NonRetryable::<String>(e),
        LlmAttemptOutcome::HttpStatus(status) => if status == 429 || (500 <= status && status
            <= 599) {
            r is Retryable
        } else {
            r matches HttpResult::NonRetryable(m) && m@ == "Gemini API error: HTTP "@
                + dec_digits(status as int)
        },
        LlmAttemptOutcome::NetworkFailure => r is Retryable,
    }
}

/// Classify one polishing attempt: an empty or missing candidate text is a
/// permanent "Empty response" failure, a non-blank text succeeds trimmed,
/// rate limiting and server errors are transient, any other status is a
/// permanent API failure naming it, and a transport failure is transient.
pub fn classify_polish_response(outcome: LlmAttemptOutcome) -> (r: HttpResult<String>)
    ensures
        polish_classification_spec(outcome, r),
{
    match outcome {
        LlmAttemptOutcome::ResponseText(t) => match t {
            Some(text) => {
                if str_is_blank(text.as_str()) {
                    HttpResult::NonRetryable(String::from_str("Empty response"))
                } else {
                    HttpResult::Success(trim_str(text.as_str()))
                }
            }
            None => HttpResult::NonRetryable(String::from_str("Empty response")),
        },
        LlmAttemptOutcome::ParseFailure(e) => HttpResult::NonRetryable(e),
        LlmAttemptOutcome::HttpStatus(status) => {
            if status == 429 || (500 <= status && status <= 599) {
                HttpResult::Retryable
            } else {
                let mut m = String::from_str("Gemini API error: HTTP ");
                m.append(u64_to_string(status as u64).as_str());
                HttpResult::NonRetryable(m)
            }
        }
        LlmAttemptOutcome::NetworkFailure => HttpResult::Retryable,
    }
}

/// The classification the generic text processor owes: as the polisher's,
/// except that a present candidate text always succeeds trimmed, blank or
/// not.
pub open spec fn llm_classification_spec(outcome: LlmAttemptOutcome, r: HttpResult<String>)
    -> bool {
    match outcome {
        LlmAttemptOutcome::ResponseText(t) => match t {
            Some(text) => r matches HttpResult::Success(s) && s@ == trimmed(text@),
            None => r matches HttpResult::NonRetryable(m) && m@ == "Empty response"@,
        },
        LlmAttemptOutcome::ParseFailure(e) => r == HttpResult::NonRetryable::<String>(e),
        LlmAttemptOutcome::HttpStatus(status) => if status == 429 || (500 <= status && status
            <= 599) {
            r is Retryable
        } else {
            r matches HttpResult::NonRetryable(m) && m@ == "Gemini API error: HTTP "@
                + dec_digits(status as int)
        },
        LlmAttemptOutcome::NetworkFailure => r is Retryable,
    }
}

/// Classify one attempt of the generic text processor.
pub fn classify_llm_response(outcome: LlmAttemptOutcome) -> (r: HttpResult<String>)
    ensures
        llm_classification_spec(outcome, r),
{
    match outcome {
        LlmAttemptOutcome::ResponseText(t) => match t {
            Some(text) => HttpResult::Success(trim_str(text.as_str())),
            None => HttpResult::NonRetryable(String::from_str("Empty response")),
        },
        LlmAttemptOutcome::ParseFailure(e) => HttpResult::NonRetryable(e),
        LlmAttemptOutcome::HttpStatus(status) => {
            if status == 429 || (500 <= status && status <= 599) {
                HttpResult::Retryable
            } else {
                let mut m = String::from_str("Gemini API error: HTTP ");
                m.append(u64_to_string(status as u64).as_str());
                HttpResult::NonRetryable(m)
            }
        }
        LlmAttemptOutcome::NetworkFailure => HttpResult::Retryable,
    }
}

/// Map the failure message a finished retry run left behind onto the
/// library's error type: the "Empty response" marker becomes
/// `EmptyResponse`, a message naming the API becomes `Api`, and anything
/// else — transport failures and the retries-exceeded message — becomes
/// `Http`.
pub fn llm_error_from_message(msg: String) -> (r: CoreError)
    ensures
        msg@ == "Empty response"@ ==> r == CoreError::EmptyResponse,
        msg@ != "Empty response"@ && has_prefix(msg@, "Gemini API error"@) ==> r
            == CoreError::Api(msg),
        msg@ != "Empty response"@ && !has_prefix(msg@, "Gemini API error"@) ==> r
            == CoreError::Http(msg),
{
    if str_equal(msg.as_str(), "Empty response") {
        CoreError::EmptyResponse
    } else if str_starts_with(msg.as_str(), "Gemini API error") {
        CoreError::Api(msg)
    } else {
        CoreError::Http(msg)
    }
}

} // verus!
