use vstd::prelude::*;
use vstd::string::*;
use vstd::utf8::{decode_utf8, valid_utf8};

verus! {

/// `String::push` appends one character to the end of the string and
/// leaves the characters before it as they were.
pub assume_specification[ String::push ](s: &mut String, c: char)
    ensures
        final(s)@ == old(s)@.push(c),
;

/// The error of `String::from_utf8`. Nothing is read from it.
#[verifier::external_type_specification]
#[verifier::external_body]
pub struct ExFromUtf8Error(std::string::FromUtf8Error);

/// `String::from_utf8` succeeds exactly on well-formed UTF-8, and the
/// string it returns holds the characters that the bytes encode.
pub assume_specification[ String::from_utf8 ](bytes: Vec<u8>) -> (text: Result<
    String,
    std::string::FromUtf8Error,
>)
    ensures
        text is Ok <==> valid_utf8(bytes@),
        text matches Ok(t) ==> t@ == decode_utf8(bytes@),
;

/// `p` is how `s` begins.
pub open spec fn has_prefix(s: Seq<char>, p: Seq<char>) -> bool {
    p.len() <= s.len() && s.subrange(0, p.len() as int) == p
}

/// `i` is the place of the first `c` in `s`.
pub open spec fn is_first_index(s: Seq<char>, c: char, i: int) -> bool {
    &&& 0 <= i < s.len()
    &&& s[i] == c
    &&& forall|j: int| 0 <= j < i ==> s[j] != c
}

/// `i` is the place of the last `c` in `s`.
pub open spec fn is_last_index(s: Seq<char>, c: char, i: int) -> bool {
    &&& 0 <= i < s.len()
    &&& s[i] == c
    &&& forall|j: int| i < j < s.len() ==> s[j] != c
}

/// The place of the first `c` in `s`, if `s` holds one.
pub open spec fn first_index(s: Seq<char>, c: char) -> Option<int> {
    if exists|i: int| is_first_index(s, c, i) {
        Some(choose|i: int| is_first_index(s, c, i))
    } else {
        None
    }
}

/// A sequence has at most one first place of a character.
pub proof fn lemma_first_index_unique(s: Seq<char>, c: char, i: int, j: int)
    requires
        is_first_index(s, c, i),
        is_first_index(s, c, j),
    ensures
        i == j,
{
}

/// A character that parts a path: a separator of either kind, or the
/// colon that ends a drive.
pub open spec fn is_path_mark(c: char) -> bool {
    c == '/' || c == '\\' || c == ':'
}

/// A path separator of either kind.
pub open spec fn is_separator(c: char) -> bool {
    c == '/' || c == '\\'
}

/// `start` is where the last segment of `path` begins: right after the
/// last separator, or at the beginning where `path` holds none.
pub open spec fn is_last_segment(path: Seq<char>, start: int) -> bool {
    &&& 0 <= start <= path.len()
    &&& start == 0 || is_separator(path[start - 1])
    &&& forall|j: int| start <= j < path.len() ==> !is_separator(path[j])
}

/// The text holds a path separator or a colon.
pub open spec fn has_path_mark(text: Seq<char>) -> bool {
    exists|i: int| 0 <= i < text.len() && is_path_mark(#[trigger] text[i])
}

/// The text is a file name that stays in its directory: it is not empty,
/// it is neither `.` nor `..`, and it holds no path separator and no colon.
/// Joined to a directory, such a name is one more component below it.
pub open spec fn is_contained_file_name(name: Seq<char>) -> bool {
    &&& name.len() > 0
    &&& name != "."@
    &&& name != ".."@
    &&& !has_path_mark(name)
}

/// The text is a bare file name: it is not empty, does not begin with a
/// dot, and holds no path separator and no colon. On every platform such a
/// text is a path of one component, which is its file name, so joined to a
/// directory it names a file in that directory.
pub open spec fn is_bare_file_name(name: Seq<char>) -> bool {
    &&& name.len() > 0
    &&& name[0] != '.'
    &&& forall|i: int| 0 <= i < name.len() ==> !is_path_mark(name[i])
}

/// The characters of `s`, in order.
pub fn chars_of(s: &str) -> (chars: Vec<char>)
    ensures
        chars@ == s@,
{
    let mut chars: Vec<char> = Vec::new();
    for c in it: s.chars()
        invariant
            chars@ == it.seq().take(it.index()),
            it.seq() == s@,
    {
        chars.push(c);
    }
    chars
}

/// The text made of `chars[from..to]`.
pub fn text_of(chars: &Vec<char>, from: usize, to: usize) -> (text: String)
    requires
        from <= to <= chars.len(),
    ensures
        text@ == chars@.subrange(from as int, to as int),
{
    let mut text = String::new();
    let mut i: usize = from;
    while i < to
        invariant
            from <= i <= to <= chars.len(),
            text@ == chars@.subrange(from as int, i as int),
        decreases to - i,
    {
        text.push(chars[i]);
        i += 1;
    }
    text
}

/// Whether `chars` begins with `prefix`.
pub fn begins_with(chars: &Vec<char>, prefix: &str) -> (b: bool)
    ensures
        b == has_prefix(chars@, prefix@),
{
    let p = chars_of(prefix);
    if p.len() > chars.len() {
        return false;
    }
    let mut i: usize = 0;
    while i < p.len()
        invariant
            i <= p.len() <= chars.len(),
            p@ == prefix@,
            forall|j: int| 0 <= j < i ==> chars@[j] == p@[j],
        decreases p.len() - i,
    {
        if chars[i] != p[i] {
            return false;
        }
        i += 1;
    }
    assert(chars@.subrange(0, p.len() as int) =~= p@);
    true
}

/// Whether `chars[from..to]` and `other` are the same text.
pub fn range_equals(chars: &Vec<char>, from: usize, to: usize, other: &str) -> (b: bool)
    requires
        from <= to <= chars.len(),
    ensures
        b == (chars@.subrange(from as int, to as int) == other@),
{
    let o = chars_of(other);
    if o.len() != to - from {
        return false;
    }
    let ghost part = chars@.subrange(from as int, to as int);
    let mut i: usize = 0;
    while i < o.len()
        invariant
            from <= to <= chars.len(),
            o.len() == to - from,
            i <= o.len(),
            o@ == other@,
            part == chars@.subrange(from as int, to as int),
            forall|j: int| 0 <= j < i ==> part[j] == o@[j],
        decreases o.len() - i,
    {
        if chars[from + i] != o[i] {
            return false;
        }
        i += 1;
    }
    assert(part =~= o@);
    true
}

/// The place of the first `c` in `chars`.
pub fn find_char(chars: &Vec<char>, c: char) -> (place: Option<usize>)
    ensures
        match place {
            Some(i) => first_index(chars@, c) == Some(i as int),
            None => first_index(chars@, c) is None,
        },
{
    let mut i: usize = 0;
    while i < chars.len()
        invariant
            i <= chars.len(),
            forall|j: int| 0 <= j < i ==> chars@[j] != c,
        decreases chars.len() - i,
    {
        if chars[i] == c {
            proof {
                assert(is_first_index(chars@, c, i as int));
                lemma_first_index_unique(chars@, c, i as int, first_index(chars@, c)->0);
            }
            return Some(i);
        }
        i += 1;
    }
    None
}

/// Whether the characters hold a path separator or a colon.
pub fn holds_path_mark(chars: &Vec<char>) -> (held: bool)
    ensures
        held == has_path_mark(chars@),
{
    let mut i: usize = 0;
    while i < chars.len()
        invariant
            i <= chars.len(),
            forall|j: int| 0 <= j < i ==> !is_path_mark(chars@[j]),
        decreases chars.len() - i,
    {
        let c = chars[i];
        if c == '/' || c == '\\' || c == ':' {
            return true;
        }
        i += 1;
    }
    false
}

/// Whether the characters make a file name that stays in its directory.
pub fn chars_are_contained(chars: &Vec<char>) -> (contained: bool)
    ensures
        contained == is_contained_file_name(chars@),
{
    proof {
        reveal_strlit(".");
        reveal_strlit("..");
    }
    let n = chars.len();
    if n == 0 {
        return false;
    }
    if n == 1 && chars[0] == '.' {
        assert(chars@ =~= "."@);
        return false;
    }
    if n == 2 && chars[0] == '.' && chars[1] == '.' {
        assert(chars@ =~= ".."@);
        return false;
    }
    proof {
        if chars@ == "."@ || chars@ == ".."@ {
            assert(chars@[0] == '.');
            if n == 2 {
                assert(chars@[1] == '.');
            }
        }
    }
    !holds_path_mark(chars)
}

} // verus!
