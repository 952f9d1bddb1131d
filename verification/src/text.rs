//! Work on the characters of strings.

use vstd::prelude::*;

verus! {

/// The part of `text` before its first `separator`: all of `text` where it
/// holds none.
pub open spec fn leading_segment(text: Seq<char>, separator: char) -> Seq<char> {
    match text.index_of_first(separator) {
        Some(at) => text.take(at),
        None => text,
    }
}

/// `path` without a leading `./`.
pub open spec fn without_dot_slash(path: Seq<char>) -> Seq<char> {
    if path.len() >= 2 && path[0] == '.' && path[1] == '/' {
        path.skip(2)
    } else {
        path
    }
}

/// The views of a list of strings, in order.
pub open spec fn strings_view(strings: Seq<String>) -> Seq<Seq<char>> {
    strings.map_values(|s: String| s@)
}

/// The characters of `s`, in order.
pub fn chars_of(s: &str) -> (chars: Vec<char>)
    ensures
        chars@ == s@,
{
    let mut chars: Vec<char> = Vec::new();
    for c in it: s.chars()
        invariant
            it.seq() == s@,
            chars@ == s@.take(it.index() as int),
    {
        chars.push(c);
    }
    chars
}

/// How many characters of `chars` stand before its first `separator`: the
/// length of `chars` where it holds none.
pub fn leading_segment_len(chars: &Vec<char>, separator: char) -> (len: usize)
    ensures
        len <= chars.len(),
        chars@.take(len as int) == leading_segment(chars@, separator),
        len == chars.len() <==> !chars@.contains(separator),
{
    let mut i: usize = 0;
    while i < chars.len() && chars[i] != separator
        invariant
            i <= chars.len(),
            forall|j: int| 0 <= j < i ==> chars@[j] != separator,
        decreases chars.len() - i,
    {
        i += 1;
    }
    proof {
        chars@.index_of_first_ensures(separator);
        if i < chars.len() {
            assert(chars@[i as int] == separator);
        }
    }
    i
}

/// Whether `chars` holds `wanted`.
pub fn contains_char(chars: &Vec<char>, wanted: char) -> (found: bool)
    ensures
        found == chars@.contains(wanted),
{
    leading_segment_len(chars, wanted) < chars.len()
}

/// The characters of `chars` from `from` on.
pub fn tail_of(chars: &Vec<char>, from: usize) -> (tail: Vec<char>)
    requires
        from <= chars.len(),
    ensures
        tail@ == chars@.skip(from as int),
{
    let mut tail: Vec<char> = Vec::new();
    let mut i: usize = from;
    while i < chars.len()
        invariant
            from <= i <= chars.len(),
            tail@ == chars@.subrange(from as int, i as int),
        decreases chars.len() - i,
    {
        tail.push(chars[i]);
        i += 1;
    }
    tail
}

/// The characters of `path` without a leading `./`.
pub fn chars_without_dot_slash(path: &Vec<char>) -> (plain: Vec<char>)
    ensures
        plain@ == without_dot_slash(path@),
{
    if path.len() >= 2 && path[0] == '.' && path[1] == '/' {
        tail_of(path, 2)
    } else {
        tail_of(path, 0)
    }
}

/// Whether `list` holds a string with the characters of `wanted`.
pub fn contains_string(list: &Vec<String>, wanted: &String) -> (found: bool)
    ensures
        found == strings_view(list@).contains(wanted@),
{
    let mut i: usize = 0;
    while i < list.len()
        invariant
            i <= list.len(),
            forall|j: int| 0 <= j < i ==> list@[j]@ != wanted@,
        decreases list.len() - i,
    {
        if list[i] == *wanted {
            assert(strings_view(list@)[i as int] == wanted@);
            return true;
        }
        i += 1;
    }
    false
}

/// A copy of `list`: the same strings in the same order.
pub fn clone_strings(list: &Vec<String>) -> (copy: Vec<String>)
    ensures
        strings_view(copy@) == strings_view(list@),
{
    let mut copy: Vec<String> = Vec::new();
    let mut i: usize = 0;
    while i < list.len()
        invariant
            i <= list.len(),
            copy.len() == i,
            forall|j: int| 0 <= j < i ==> copy@[j]@ == list@[j]@,
        decreases list.len() - i,
    {
        copy.push(list[i].clone());
        i += 1;
    }
    copy
}

} // verus!
