//! Paths and names as text. A path is a string whose components are
//! separated by `/`; it is absolute when it starts with `/`.

use vstd::prelude::*;

verus! {

/// The component separator.
pub open spec fn separator() -> Seq<char> {
    seq!['/']
}

/// A path is absolute when its first character is the separator.
pub open spec fn is_absolute_path(path: Seq<char>) -> bool {
    path.len() > 0 && path[0] == '/'
}

/// `base` followed by the separator and `name`.
pub open spec fn join_path(base: Seq<char>, name: Seq<char>) -> Seq<char> {
    base + separator() + name
}

/// `text` with every `from` replaced by `to`.
pub open spec fn replace_char(text: Seq<char>, from: char, to: char) -> Seq<char> {
    Seq::new(text.len(), |i: int| if text[i] == from { to } else { text[i] })
}

/// The text of each string of a sequence.
pub open spec fn texts(strings: Seq<String>) -> Seq<Seq<char>> {
    strings.map_values(|s: String| s@)
}

/// The text of an optional string.
pub open spec fn optional_text(string: Option<String>) -> Option<Seq<char>> {
    match string {
        Some(s) => Some(s@),
        None => None,
    }
}

/// Tells whether `path` is absolute.
pub fn is_absolute(path: &str) -> (absolute: bool)
    ensures
        absolute == is_absolute_path(path@),
{
    path.unicode_len() > 0 && path.get_char(0) == '/'
}

/// Tells whether two pieces of text are equal.
pub fn str_eq(left: &str, right: &str) -> (equal: bool)
    ensures
        equal == (left@ == right@),
{
    let a = chars_of(left);
    let b = chars_of(right);
    if a.len() != b.len() {
        return false;
    }
    let mut i: usize = 0;
    while i < a.len()
        invariant
            i <= a@.len(),
            a@ == left@,
            b@ == right@,
            a@.len() == b@.len(),
            forall|j: int| 0 <= j < i ==> a@[j] == b@[j],
        decreases a.len() - i,
    {
        if a[i] != b[i] {
            return false;
        }
        i += 1;
    }
    assert(a@ =~= b@);
    true
}

/// One piece of text followed by another.
pub fn followed_by(left: &str, right: &str) -> (joined: String)
    ensures
        joined@ == left@ + right@,
{
    let mut joined = String::from_str(left);
    joined.append(right);
    joined
}

/// Joins a path and one more component.
pub fn join(base: &str, name: &str) -> (path: String)
    ensures
        path@ == join_path(base@, name@),
{
    let mut path = String::from_str(base);
    path.append("/");
    proof {
        reveal_strlit("/");
        assert("/"@ =~= separator());
    }
    path.append(name);
    path
}

/// `std::string::String::push`: the string afterwards is the string before
/// with `c` added at its end.
pub assume_specification[ String::push ](s: &mut String, c: char)
    ensures
        final(s)@ == old(s)@.push(c),
;

/// The characters of a piece of text.
pub fn chars_of(text: &str) -> (chars: Vec<char>)
    ensures
        chars@ == text@,
{
    let mut chars: Vec<char> = Vec::new();
    for c in it: text.chars()
        invariant
            chars@ == it.seq().take(it.index() as int),
            it.seq() == text@,
    {
        proof {
            assert(it.seq().take(it.index() + 1) =~= it.seq().take(it.index() as int).push(c));
        }
        chars.push(c);
    }
    chars
}

/// The text made of the characters `chars[from..to]`.
pub fn string_of(chars: &Vec<char>, from: usize, to: usize) -> (text: String)
    requires
        from <= to <= chars@.len(),
    ensures
        text@ == chars@.subrange(from as int, to as int),
{
    let mut text = String::new();
    let mut i: usize = from;
    while i < to
        invariant
            from <= i <= to <= chars@.len(),
            text@ == chars@.subrange(from as int, i as int),
        decreases to - i,
    {
        proof {
            assert(chars@.subrange(from as int, i + 1) =~= chars@.subrange(
                from as int,
                i as int,
            ).push(chars@[i as int]));
        }
        text.push(chars[i]);
        i += 1;
    }
    text
}

/// Replaces every `from` in `text` by `to`.
pub fn replace(text: &str, from: char, to: char) -> (replaced: String)
    ensures
        replaced@ == replace_char(text@, from, to),
{
    let chars = chars_of(text);
    let mut replaced = String::new();
    let mut i: usize = 0;
    while i < chars.len()
        invariant
            i <= chars@.len(),
            chars@ == text@,
            replaced@ == replace_char(text@, from, to).take(i as int),
        decreases chars.len() - i,
    {
        let c = chars[i];
        proof {
            assert(replace_char(text@, from, to).take(i + 1) =~= replace_char(
                text@,
                from,
                to,
            ).take(i as int).push(if c == from { to } else { c }));
        }
        if c == from {
            replaced.push(to);
        } else {
            replaced.push(c);
        }
        i += 1;
    }
    proof {
        assert(replace_char(text@, from, to).take(i as int) =~= replace_char(text@, from, to));
    }
    replaced
}

/// A file name with the extension `extension`: a stem that is not empty,
/// a dot, and the extension.
pub open spec fn with_extension(stem: Seq<char>, extension: Seq<char>) -> Seq<char> {
    stem + seq!['.'] + extension
}

/// What stands before the extension, where `name` is a stem that is not
/// empty, a dot and `extension`.
pub open spec fn stem_before(name: Seq<char>, extension: Seq<char>) -> Option<Seq<char>> {
    let cut = name.len() - extension.len() - 1;
    if cut > 0 && name == with_extension(name.take(cut), extension) {
        Some(name.take(cut))
    } else {
        None
    }
}

/// Tells whether `name` has the extension `extension`, which holds no dot:
/// whether it ends in a dot and `extension`, after a stem that is not empty.
pub open spec fn has_extension(name: Seq<char>, extension: Seq<char>) -> bool {
    stem_before(name, extension) is Some
}

/// Splits the extension off a file name: the stem where the name has that
/// extension, nothing where it has not.
pub fn strip_extension(name: &str, extension: &str) -> (stem: Option<String>)
    ensures
        optional_text(stem) == stem_before(name@, extension@),
{
    let chars = chars_of(name);
    let tail = chars_of(extension);
    if chars.len() <= tail.len() || chars.len() - tail.len() < 2 {
        return None;
    }
    let cut: usize = chars.len() - tail.len() - 1;
    if chars[cut] != '.' {
        proof {
            assert(with_extension(name@.take(cut as int), extension@)[cut as int] == '.');
        }
        return None;
    }
    let mut i: usize = 0;
    while i < tail.len()
        invariant
            i <= tail@.len(),
            chars@ == name@,
            tail@ == extension@,
            cut + 1 + tail@.len() == chars@.len() <= usize::MAX,
            forall|j: int| 0 <= j < i ==> chars@[cut + 1 + j] == tail@[j],
        decreases tail.len() - i,
    {
        if chars[cut + 1 + i] != tail[i] {
            proof {
                assert(with_extension(name@.take(cut as int), extension@)[cut + 1 + i]
                    == extension@[i as int]);
            }
            return None;
        }
        i += 1;
    }
    let stem = string_of(&chars, 0, cut);
    proof {
        assert(stem@ =~= name@.take(cut as int));
        assert(name@ =~= with_extension(name@.take(cut as int), extension@));
    }
    Some(stem)
}

/// How one text stands to another in the order of texts.
#[derive(Clone, Copy, Debug, PartialEq, Eq, Structural)]
pub enum Order {
    Before,
    Same,
    After,
}

/// The two texts hold the same characters before position `count`.
pub open spec fn agree(left: Seq<char>, right: Seq<char>, count: int) -> bool {
    &&& 0 <= count <= left.len()
    &&& count <= right.len()
    &&& forall|i: int| 0 <= i < count ==> left[i] == right[i]
}

/// `left` comes before `right` in the order of texts: at the first position
/// where they differ, `left` has ended or holds the lesser character. This is
/// the order of `str`.
pub open spec fn precedes(left: Seq<char>, right: Seq<char>) -> bool {
    exists|count: int| #[trigger]
        agree(left, right, count) && count < right.len() && (count == left.len() || (
        left[count] as int) < (right[count] as int))
}

/// No text comes before itself.
pub proof fn lemma_precedes_is_irreflexive(text: Seq<char>)
    ensures
        !precedes(text, text),
{
}

/// The order of texts is transitive.
pub proof fn lemma_precedes_is_transitive(first: Seq<char>, second: Seq<char>, third: Seq<char>)
    requires
        precedes(first, second),
        precedes(second, third),
    ensures
        precedes(first, third),
{
    let a = choose|count: int| #[trigger]
        agree(first, second, count) && count < second.len() && (count == first.len() || (
        first[count] as int) < (second[count] as int));
    let b = choose|count: int| #[trigger]
        agree(second, third, count) && count < third.len() && (count == second.len() || (
        second[count] as int) < (third[count] as int));
    let least = if a <= b {
        a
    } else {
        b
    };
    assert(agree(first, third, least));
}

/// Of two texts that differ, one comes before the other. `count` is a
/// position before which they are known to agree.
pub proof fn lemma_precedes_is_total(left: Seq<char>, right: Seq<char>, count: int)
    requires
        agree(left, right, count),
        left != right,
    ensures
        precedes(left, right) || precedes(right, left),
    decreases left.len() - count,
{
    if count == left.len() {
        if count == right.len() {
            assert(left =~= right);
        } else {
            assert(agree(left, right, count));
        }
    } else if count == right.len() {
        assert(agree(right, left, count));
    } else if left[count] == right[count] {
        lemma_precedes_is_total(left, right, count + 1);
    } else if (left[count] as int) < (right[count] as int) {
        assert(agree(left, right, count));
    } else {
        assert(agree(right, left, count));
    }
}

/// How `left` stands to `right` in the order of texts.
pub fn compare(left: &str, right: &str) -> (order: Order)
    ensures
        match order {
            Order::Before => precedes(left@, right@),
            Order::Same => left@ == right@,
            Order::After => precedes(right@, left@),
        },
{
    let a = chars_of(left);
    let b = chars_of(right);
    let mut i: usize = 0;
    while i < a.len() && i < b.len() && a[i] == b[i]
        invariant
            a@ == left@,
            b@ == right@,
            agree(a@, b@, i as int),
        decreases a.len() - i,
    {
        i += 1;
    }
    if i == a.len() {
        if i == b.len() {
            assert(a@ =~= b@);
            Order::Same
        } else {
            assert(agree(left@, right@, i as int));
            Order::Before
        }
    } else if i == b.len() {
        assert(agree(right@, left@, i as int));
        Order::After
    } else if a[i] < b[i] {
        assert(agree(left@, right@, i as int));
        Order::Before
    } else {
        assert(agree(right@, left@, i as int));
        Order::After
    }
}

} // verus!
