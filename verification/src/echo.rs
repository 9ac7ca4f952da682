//! The echo command: a greeting with the caller's text set into it.
//!
//! Echo touches no window and cannot fail. Its reply is a function of the
//! text alone.

use vstd::prelude::*;
use vstd::string::StringExecFns;

verus! {

/// The words that stand before the echoed text.
pub const OPENING: &'static str = "Hello, ";

/// The words that stand after the echoed text.
pub const CLOSING: &'static str = "! You've been greeted from Rust!";

/// The reply to an echo of `text`: the fixed wording with `text` set into it.
pub open spec fn greeting(text: Seq<char>) -> Seq<char> {
    OPENING@ + text + CLOSING@
}

/// Where in a reply the echoed text starts.
pub open spec fn text_offset() -> int {
    OPENING@.len() as int
}

/// Whether `needle` stands in `haystack` at the offset `at`.
pub open spec fn occurs_at(haystack: Seq<char>, needle: Seq<char>, at: int) -> bool {
    &&& 0 <= at
    &&& at + needle.len() <= haystack.len()
    &&& haystack.subrange(at, at + needle.len()) == needle
}

/// The offsets at which `needle` stands in `haystack`.
pub open spec fn occurrences(haystack: Seq<char>, needle: Seq<char>) -> Set<int> {
    Set::new(|at: int| occurs_at(haystack, needle, at))
}

/// Whether the reply to `text` holds `text` only where echo set it: no second
/// copy comes about by chance, out of the wording around it.
pub open spec fn occurs_nowhere_else(text: Seq<char>) -> bool {
    forall|at: int| occurs_at(greeting(text), text, at) ==> at == text_offset()
}

/// Answers an echo request. Every text is accepted, the empty one too.
pub fn echo(text: &str) -> (reply: String)
    ensures
        reply@ == greeting(text@),
{
    let mut reply = String::from_str(OPENING);
    reply.append(text);
    reply.append(CLOSING);
    reply
}

/// The reply is made of three parts and nothing else: the opening words,
/// which are always the same seven characters; the text as it came; and the
/// closing words, which are always the same thirty-two characters.
pub proof fn lemma_echo_embeds_text(text: Seq<char>)
    ensures
        text_offset() == 7,
        greeting(text).len() == text.len() + 39,
        greeting(text).subrange(0, 7) == OPENING@,
        greeting(text).subrange(7, 7 + text.len() as int) == text,
        greeting(text).subrange(7 + text.len() as int, greeting(text).len() as int)
            == CLOSING@,
        occurs_at(greeting(text), text, text_offset()),
{
    reveal_strlit("Hello, ");
    reveal_strlit("! You've been greeted from Rust!");
}

/// The same text gives the same reply, and only the same text does: the reply
/// depends on nothing else, and the text can be read back out of it.
pub proof fn lemma_echo_is_faithful(text: Seq<char>, other: Seq<char>)
    ensures
        greeting(text) == greeting(other) <==> text == other,
{
    if greeting(text) == greeting(other) {
        lemma_echo_embeds_text(text);
        lemma_echo_embeds_text(other);
    }
}

/// The reply holds the text exactly once, for every text that the wording
/// around it does not spell a second time.
///
/// Some texts are spelled a second time: the empty text stands at every
/// offset of any reply, and `l` stands in the opening words. For those the
/// reply still holds the one copy that echo set, at its offset, as
/// [`lemma_echo_embeds_text`] says, and other copies beside it.
pub proof fn lemma_echo_contains_text_once(text: Seq<char>)
    requires
        occurs_nowhere_else(text),
    ensures
        occurrences(greeting(text), text) == set![text_offset()],
        occurrences(greeting(text), text).len() == 1,
{
    lemma_echo_embeds_text(text);
    assert(occurrences(greeting(text), text) =~= set![text_offset()]);
}

/// A text that begins with a character that is not in the opening words, and
/// ends with one that is not in the closing words, occurs in its reply
/// nowhere but where echo set it.
pub proof fn lemma_foreign_text_occurs_nowhere_else(text: Seq<char>)
    requires
        text.len() > 0,
        !OPENING@.contains(text.first()),
        !CLOSING@.contains(text.last()),
    ensures
        occurs_nowhere_else(text),
{
    let reply = greeting(text);
    let start = text_offset();
    assert forall|at: int| occurs_at(reply, text, at) implies at == start by {
        let copy = reply.subrange(at, at + text.len());
        if at < start {
            // The copy would begin within the opening words.
            assert(copy.first() == OPENING@[at]);
        } else if at > start {
            // The copy would end within the closing words.
            assert(copy.last() == CLOSING@[at - start - 1]);
        }
    }
}

} // verus!
