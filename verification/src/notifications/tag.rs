use crate::notifications::markup::{escaped, is_reserved, lemma_escaped_plain};
use crate::text::{chars_of, has_prefix, is_bare_file_name, is_path_mark, text_of};
use vstd::prelude::*;
use vstd::string::*;

verus! {

/// A digit or one of the letters `a` to `f`.
pub open spec fn is_lower_hex(c: char) -> bool {
    ('0' <= c && c <= '9') || ('a' <= c && c <= 'f')
}

/// The text is a UUID in its usual form: 32 lower-case hexadecimal digits
/// in groups of 8, 4, 4, 4 and 12, with a hyphen between the groups.
pub open spec fn is_uuid_text(text: Seq<char>) -> bool {
    &&& text.len() == 36
    &&& forall|i: int|
        0 <= i < 36 ==> if i == 8 || i == 13 || i == 18 || i == 23 {
            text[i] == '-'
        } else {
            is_lower_hex(#[trigger] text[i])
        }
}

/// The text is a correlation tag: `notification_`, a UUID, a hyphen and
/// twelve more hexadecimal digits, 62 characters in all.
pub open spec fn is_correlation_tag(tag: Seq<char>) -> bool {
    &&& has_prefix(tag, "notification_"@)
    &&& tag.len() == 62
    &&& is_uuid_text(tag.subrange(13, 49))
    &&& tag[49] == '-'
    &&& forall|i: int| 50 <= i < 62 ==> is_lower_hex(#[trigger] tag[i])
}

/// Calls `uuid::Uuid::new_v4` and writes the identifier out with the
/// `Display` of `uuid::Uuid`, which gives the hyphenated lower-case form.
/// The identifier is random, so nothing but its form is stated. The call
/// panics where the operating system hands out no random bytes.
#[verifier::external_body]
fn fresh_uuid_text() -> (id: String)
    ensures
        is_uuid_text(id@),
{
    uuid::Uuid::new_v4().to_string()
}

/// A fresh name for the scratch directory of one request: a random UUID.
pub fn new_scratch_name() -> (name: String)
    ensures
        is_uuid_text(name@),
{
    fresh_uuid_text()
}

/// A fresh correlation tag. It is drawn as two random UUIDs: the first
/// stands in the tag as a whole, and of the second the last group of twelve
/// digits, all of which are random. That is more than 128 random bits in a
/// tag short enough for the platform, which takes 64 characters.
pub fn new_tag() -> (tag: String)
    ensures
        is_correlation_tag(tag@),
{
    let id = fresh_uuid_text();
    let more = chars_of(fresh_uuid_text().as_str());
    let group = text_of(&more, 24, 36);
    let mut tag = String::from_str("notification_");
    tag.append(id.as_str());
    tag.append("-");
    tag.append(group.as_str());
    proof {
        reveal_strlit("notification_");
        reveal_strlit("-");
        assert(tag@.subrange(0, 13) =~= "notification_"@);
        assert(tag@.subrange(13, 49) =~= id@);
        assert forall|i: int| 50 <= i < 62 implies is_lower_hex(#[trigger] tag@[i]) by {
            assert(tag@[i] == group@[i - 50]);
            assert(group@[i - 50] == more@[i - 26]);
        }
    }
    tag
}

/// A correlation tag holds no reserved character, so it stands in markup
/// as it is.
pub proof fn lemma_tag_needs_no_escaping(tag: Seq<char>)
    requires
        is_correlation_tag(tag),
    ensures
        forall|i: int| 0 <= i < tag.len() ==> !is_reserved(tag[i]),
        escaped(tag) == tag,
{
    reveal_strlit("notification_");
    let id = tag.subrange(13, 49);
    assert forall|i: int| 0 <= i < tag.len() implies !is_reserved(tag[i]) by {
        if i < 13 {
            assert(tag.subrange(0, 13)[i] == tag[i]);
        } else if i < 49 {
            let k = i - 13;
            assert(id[k] == tag[i]);
            assert(id[k] == '-' || is_lower_hex(id[k]));
        } else if i > 49 {
            assert(is_lower_hex(tag[i]));
        }
    }
    lemma_escaped_plain(tag);
}

/// The name of a scratch directory is a bare file name, so that joined to
/// a directory it is one more component below it; and of two different
/// names neither is the beginning of the other, so that neither directory
/// lies in the other.
pub proof fn lemma_scratch_names_keep_apart(a: Seq<char>, b: Seq<char>)
    requires
        is_uuid_text(a),
        is_uuid_text(b),
        a != b,
    ensures
        is_bare_file_name(a),
        is_bare_file_name(b),
        !has_prefix(a, b),
        !has_prefix(b, a),
{
    assert forall|i: int| 0 <= i < a.len() implies !is_path_mark(a[i]) by {
        assert(a[i] == '-' || is_lower_hex(a[i]));
    }
    assert forall|i: int| 0 <= i < b.len() implies !is_path_mark(b[i]) by {
        assert(b[i] == '-' || is_lower_hex(b[i]));
    }
    assert(is_lower_hex(a[0]) && is_lower_hex(b[0]));
    if has_prefix(a, b) {
        assert(a.subrange(0, 36) =~= a);
    }
    if has_prefix(b, a) {
        assert(b.subrange(0, 36) =~= b);
    }
}

} // verus!
