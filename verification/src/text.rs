//! Small string utilities, specified over sequences of characters.

use vstd::prelude::*;

verus! {

/// The character sequences of a list of strings, in order.
pub open spec fn names(list: Seq<String>) -> Seq<Seq<char>> {
    Seq::new(list.len(), |i: int| list[i]@)
}

/// The characters of an optional string slice.
pub open spec fn optional_text(text: Option<&str>) -> Option<Seq<char>> {
    match text {
        Some(t) => Some(t@),
        None => None,
    }
}

/// The characters of an optional string.
pub open spec fn optional_string(text: Option<String>) -> Option<Seq<char>> {
    match text {
        Some(t) => Some(t@),
        None => None,
    }
}

/// How often `name` occurs in `list`.
pub open spec fn occurrences(list: Seq<Seq<char>>, name: Seq<char>) -> nat
    decreases list.len(),
{
    if list.len() == 0 {
        0
    } else {
        occurrences(list.drop_last(), name) + if list.last() == name {
            1nat
        } else {
            0nat
        }
    }
}

/// The names of `list` with `name` appended are the names of `list.push(name)`.
pub proof fn lemma_names_push(list: Seq<String>, name: String)
    ensures
        names(list.push(name)) == names(list).push(name@),
{
    assert(names(list.push(name)) =~= names(list).push(name@));
}

/// Copies a list of names.
pub fn clone_names(list: &Vec<String>) -> (copy: Vec<String>)
    ensures
        names(copy@) == names(list@),
{
    let mut copy: Vec<String> = Vec::new();
    let mut i: usize = 0;
    while i < list.len()
        invariant
            i <= list.len(),
            copy@.len() == i,
            forall|j: int| 0 <= j < i ==> copy@[j]@ == list@[j]@,
        decreases list.len() - i,
    {
        copy.push(list[i].clone());
        i += 1;
    }
    assert(names(copy@) =~= names(list@));
    copy
}

/// Whether two strings hold the same characters.
pub fn same_text(a: &str, b: &str) -> (same: bool)
    ensures
        same == (a@ == b@),
{
    a.to_owned() == b.to_owned()
}

/// Whether `name` occurs in `list`.
pub fn contains_name(list: &Vec<String>, name: &str) -> (found: bool)
    ensures
        found == names(list@).contains(name@),
{
    let mut i: usize = 0;
    while i < list.len()
        invariant
            i <= list.len(),
            forall|j: int| 0 <= j < i ==> list@[j]@ != name@,
        decreases list.len() - i,
    {
        if same_text(list[i].as_str(), name) {
            assert(names(list@)[i as int] == name@);
            return true;
        }
        i += 1;
    }
    false
}

/// `String::push` appends one character and changes nothing else.
pub assume_specification[ String::push ](text: &mut String, ch: char)
    ensures
        final(text)@ == old(text)@.push(ch),
;

/// The characters of `text`, one by one.
pub fn chars_of(text: &str) -> (chars: Vec<char>)
    ensures
        chars@ == text@,
{
    broadcast use vstd::string::group_string_axioms;

    let mut chars: Vec<char> = Vec::new();
    for c in it: text.chars()
        invariant
            it.seq() == text@,
            chars@ == text@.take(it.index()),
    {
        chars.push(c);
        assert(text@.take(it.index() + 1) =~= text@.take(it.index()).push(c));
    }
    assert(text@.take(text@.len() as int) =~= text@);
    chars
}

/// The string made of `chars`.
pub fn text_of(chars: &Vec<char>) -> (text: String)
    ensures
        text@ == chars@,
{
    let mut text = String::new();
    let mut i: usize = 0;
    while i < chars.len()
        invariant
            i <= chars.len(),
            text@ == chars@.take(i as int),
        decreases chars.len() - i,
    {
        text.push(chars[i]);
        assert(chars@.take(i + 1) =~= chars@.take(i as int).push(chars@[i as int]));
        i += 1;
    }
    assert(chars@.take(i as int) =~= chars@);
    text
}

/// Whether `pattern` stands in `text` at position `start`.
pub open spec fn infix_at(text: Seq<char>, pattern: Seq<char>, start: int) -> bool {
    &&& 0 <= start
    &&& start + pattern.len() <= text.len()
    &&& text.subrange(start, start + pattern.len()) == pattern
}

/// Whether `pattern` stands somewhere in `text`.
pub open spec fn has_infix(text: Seq<char>, pattern: Seq<char>) -> bool {
    exists|start: int| infix_at(text, pattern, start)
}

/// Whether `pattern` stands somewhere in `text`.
pub fn contains_text(text: &str, pattern: &str) -> (found: bool)
    ensures
        found == has_infix(text@, pattern@),
{
    let t = chars_of(text);
    let p = chars_of(pattern);
    if p.len() > t.len() {
        return false;
    }
    let last: usize = t.len() - p.len();
    let mut start: usize = 0;
    while start <= last
        invariant
            t@ == text@,
            p@ == pattern@,
            last == t.len() - p.len(),
            start <= last + 1,
            forall|s: int| 0 <= s < start ==> !infix_at(t@, p@, s),
        decreases last + 1 - start,
    {
        let mut k: usize = 0;
        while k < p.len() && t[start + k] == p[k]
            invariant
                start <= last,
                last == t.len() - p.len(),
                k <= p.len(),
                forall|j: int| 0 <= j < k ==> t@[start + j] == p@[j],
            decreases p.len() - k,
        {
            k += 1;
        }
        if k == p.len() {
            assert(t@.subrange(start as int, start + p.len()) =~= p@);
            assert(infix_at(text@, pattern@, start as int));
            return true;
        }
        assert(!infix_at(t@, p@, start as int)) by {
            if infix_at(t@, p@, start as int) {
                assert(t@.subrange(start as int, start + p.len())[k as int] == p@[k as int]);
            }
        }
        start += 1;
    }
    false
}

/// What follows the last `/` of `path`: all of it where it holds none.
pub open spec fn last_segment(path: Seq<char>) -> Seq<char>
    decreases path.len(),
{
    if path.len() == 0 {
        path
    } else if path.last() == '/' {
        Seq::empty()
    } else {
        last_segment(path.drop_last()).push(path.last())
    }
}

/// The last segment is the tail of `path` from `start` on, where that tail
/// holds no `/` and either is all of `path` or follows a `/`.
pub proof fn lemma_last_segment_is_tail(path: Seq<char>, start: int)
    requires
        0 <= start <= path.len(),
        forall|i: int| start <= i < path.len() ==> path[i] != '/',
        start > 0 ==> path[start - 1] == '/',
    ensures
        last_segment(path) == path.subrange(start, path.len() as int),
    decreases path.len(),
{
    if path.len() == 0 {
        assert(path.subrange(start, path.len() as int) =~= path);
    } else if start == path.len() {
        assert(path.subrange(start, path.len() as int) =~= Seq::<char>::empty());
    } else {
        let shorter = path.drop_last();
        lemma_last_segment_is_tail(shorter, start);
        assert(path.subrange(start, path.len() as int) =~= shorter.subrange(
            start,
            shorter.len() as int,
        ).push(path.last()));
    }
}

/// What follows the last `/` of `path`.
pub fn last_segment_of(path: &str) -> (segment: String)
    ensures
        segment@ == last_segment(path@),
{
    let chars = chars_of(path);
    let mut start: usize = chars.len();
    while start > 0 && chars[start - 1] != '/'
        invariant
            start <= chars.len(),
            forall|i: int| start <= i < chars.len() ==> chars@[i] != '/',
        decreases start,
    {
        start -= 1;
    }
    let mut tail: Vec<char> = Vec::new();
    let mut i: usize = start;
    while i < chars.len()
        invariant
            start <= i <= chars.len(),
            tail@ == chars@.subrange(start as int, i as int),
        decreases chars.len() - i,
    {
        tail.push(chars[i]);
        assert(chars@.subrange(start as int, i + 1) =~= chars@.subrange(
            start as int,
            i as int,
        ).push(chars@[i as int]));
        i += 1;
    }
    proof {
        lemma_last_segment_is_tail(chars@, start as int);
    }
    text_of(&tail)
}

} // verus!
