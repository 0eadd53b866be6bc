use vstd::prelude::*;
use vstd::string::*;

verus! {

/// The four characters that mean something to the markup.
pub open spec fn is_reserved(c: char) -> bool {
    c == '&' || c == '"' || c == '<' || c == '>'
}

/// What stands for one character in markup: its entity for a reserved
/// character, the character itself for any other.
pub open spec fn escaped_char(c: char) -> Seq<char> {
    if c == '&' {
        "&amp;"@
    } else if c == '"' {
        "&quot;"@
    } else if c == '<' {
        "&lt;"@
    } else if c == '>' {
        "&gt;"@
    } else {
        seq![c]
    }
}

/// What stands for a text in markup: each character's replacement, in
/// order.
pub open spec fn escaped(text: Seq<char>) -> Seq<char>
    decreases text.len(),
{
    if text.len() == 0 {
        Seq::empty()
    } else {
        escaped(text.drop_last()) + escaped_char(text.last())
    }
}

/// `word` stands in `text` from place `at` on.
pub open spec fn has_at(text: Seq<char>, at: int, word: Seq<char>) -> bool {
    0 <= at && at + word.len() <= text.len() && text.subrange(at, at + word.len()) == word
}

/// One of the four entities stands in `text` from place `at` on.
pub open spec fn entity_at(text: Seq<char>, at: int) -> bool {
    has_at(text, at, "&amp;"@) || has_at(text, at, "&quot;"@) || has_at(text, at, "&lt;"@)
        || has_at(text, at, "&gt;"@)
}

/// Place `at` of `text` holds no quote and no angle bracket, and an
/// ampersand only as the beginning of an entity.
pub open spec fn is_inert_at(text: Seq<char>, at: int) -> bool {
    &&& text[at] != '<'
    &&& text[at] != '>'
    &&& text[at] != '"'
    &&& text[at] == '&' ==> entity_at(text, at)
}

/// No place of `text` holds a reserved character other than the ampersand
/// that begins an entity.
pub open spec fn is_inert(text: Seq<char>) -> bool {
    forall|at: int| 0 <= at < text.len() ==> is_inert_at(text, at)
}

/// The text with its reserved characters replaced by their entities.
pub fn escape_xml(input: &str) -> (output: String)
    ensures
        output@ == escaped(input@),
{
    let mut output = String::new();
    for c in it: input.chars()
        invariant
            output@ == escaped(it.seq().take(it.index())),
            it.seq() == input@,
    {
        proof {
            let next = it.seq().take(it.index() + 1);
            assert(next.drop_last() =~= it.seq().take(it.index()));
        }
        if c == '&' {
            output.append("&amp;");
        } else if c == '"' {
            output.append("&quot;");
        } else if c == '<' {
            output.append("&lt;");
        } else if c == '>' {
            output.append("&gt;");
        } else {
            output.push(c);
        }
    }
    assert(input@.take(input@.len() as int) =~= input@);
    output
}

/// A text without reserved characters is its own escaped form.
pub proof fn lemma_escaped_plain(text: Seq<char>)
    requires
        forall|i: int| 0 <= i < text.len() ==> !is_reserved(text[i]),
    ensures
        escaped(text) == text,
    decreases text.len(),
{
    if text.len() > 0 {
        lemma_escaped_plain(text.drop_last());
    }
}

/// What stands for one character is inert.
proof fn lemma_escaped_char_is_inert(c: char)
    ensures
        is_inert(escaped_char(c)),
        escaped_char(c).len() >= 1,
{
    reveal_strlit("&amp;");
    reveal_strlit("&quot;");
    reveal_strlit("&lt;");
    reveal_strlit("&gt;");
    let word = escaped_char(c);
    assert(word.subrange(0, word.len() as int) =~= word);
}

/// What is inert stays so where it stands inside a longer text.
pub proof fn lemma_inert_inside(before: Seq<char>, text: Seq<char>, after: Seq<char>)
    requires
        is_inert(text),
    ensures
        forall|at: int|
            before.len() <= at < before.len() + text.len() ==> is_inert_at(
                before + text + after,
                at,
            ),
{
    let whole = before + text + after;
    let shift = before.len() as int;
    assert forall|at: int| shift <= at < shift + text.len() implies is_inert_at(whole, at) by {
        let inner = at - shift;
        assert(is_inert_at(text, inner));
        if text[inner] == '&' {
            assert forall|word: Seq<char>| has_at(text, inner, word) implies has_at(
                whole,
                at,
                word,
            ) by {
                assert(whole.subrange(at, at + word.len()) =~= text.subrange(
                    inner,
                    inner + word.len(),
                ));
            }
        }
    }
}

/// Escaped text holds no quote and no angle bracket, and no ampersand but
/// the one that begins an entity.
pub proof fn lemma_escaped_is_inert(text: Seq<char>)
    ensures
        is_inert(escaped(text)),
    decreases text.len(),
{
    if text.len() > 0 {
        let head = escaped(text.drop_last());
        let tail = escaped_char(text.last());
        lemma_escaped_is_inert(text.drop_last());
        lemma_escaped_char_is_inert(text.last());
        lemma_inert_inside(Seq::empty(), head, tail);
        lemma_inert_inside(head, tail, Seq::empty());
        assert(Seq::<char>::empty() + head + tail =~= head + tail);
        assert(head + tail + Seq::<char>::empty() =~= head + tail);
    }
}

} // verus!
