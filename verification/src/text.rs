//! Comparing, cutting and joining text.

use vstd::prelude::*;
use vstd::string::*;

verus! {

/// Whether two texts are the same.
pub fn same_text(a: &str, b: &str) -> (r: bool)
    ensures
        r == (a@ == b@),
{
    a.to_owned() == b.to_owned()
}

/// Whether two lists hold the same texts in the same order.
pub fn same_texts(a: &Vec<String>, b: &Vec<String>) -> (r: bool)
    ensures
        r == (a.deep_view() == b.deep_view()),
{
    if a.len() != b.len() {
        assert(a.deep_view().len() != b.deep_view().len());
        return false;
    }
    let mut i: usize = 0;
    while i < a.len()
        invariant
            i <= a.len(),
            a.len() == b.len(),
            forall|k: int| 0 <= k < i ==> a.deep_view()[k] == b.deep_view()[k],
        decreases a.len() - i,
    {
        if !(a[i] == b[i]) {
            assert(a.deep_view()[i as int] != b.deep_view()[i as int]);
            return false;
        }
        i += 1;
    }
    assert(a.deep_view() =~= b.deep_view());
    true
}

/// Whether a list holds a text.
pub fn holds_text(list: &Vec<String>, text: &str) -> (r: bool)
    ensures
        r == list.deep_view().contains(text@),
{
    let wanted = text.to_owned();
    let mut i: usize = 0;
    while i < list.len()
        invariant
            i <= list.len(),
            wanted@ == text@,
            forall|k: int| 0 <= k < i ==> list.deep_view()[k] != text@,
        decreases list.len() - i,
    {
        if list[i] == wanted {
            assert(list.deep_view()[i as int] == text@);
            return true;
        }
        i += 1;
    }
    false
}

/// Whether `s` begins with `prefix`.
pub open spec fn has_prefix(s: Seq<char>, prefix: Seq<char>) -> bool {
    prefix.is_prefix_of(s)
}

/// What is left of `s` behind a prefix of that length.
pub open spec fn behind(s: Seq<char>, prefix: Seq<char>) -> Seq<char> {
    s.skip(prefix.len() as int)
}

/// The rest of `s` behind `prefix`, or `None` where `s` does not begin with it.
pub fn strip_prefix(s: &str, prefix: &str) -> (r: Option<String>)
    ensures
        r is Some == has_prefix(s@, prefix@),
        r matches Some(rest) ==> rest@ == behind(s@, prefix@),
{
    let total: usize = s.unicode_len();
    let cut: usize = prefix.unicode_len();
    if total < cut {
        return None;
    }
    let head = s.substring_char(0, cut);
    if same_text(head, prefix) {
        assert(has_prefix(s@, prefix@));
        Some(s.substring_char(cut, total).to_owned())
    } else {
        proof {
            if has_prefix(s@, prefix@) {
                assert(head@ =~= prefix@);
            }
        }
        None
    }
}

/// Two texts joined.
pub fn joined(a: &str, b: &str) -> (r: String)
    ensures
        r@ == a@ + b@,
{
    let mut out = a.to_owned();
    out.append(b);
    out
}

/// `Some` of a text unless it is empty.
pub open spec fn unless_empty(s: Seq<char>) -> Option<Seq<char>> {
    if s.len() == 0 {
        None
    } else {
        Some(s)
    }
}

/// Keeps a text unless it is empty.
pub fn non_empty(s: String) -> (r: Option<String>)
    ensures
        r.deep_view() == unless_empty(s@),
{
    if s.as_str().is_empty() {
        None
    } else {
        Some(s)
    }
}

/// Whether a list holds an empty text.
pub open spec fn holds_empty(texts: Seq<Seq<char>>) -> bool {
    exists|i: int| 0 <= i < texts.len() && (#[trigger] texts[i]).len() == 0
}

/// A text begins with a prefix exactly when it is the prefix and then some rest, and the rest is
/// what is left behind the prefix.
pub proof fn prefixes_are_cut_off(s: Seq<char>, prefix: Seq<char>, rest: Seq<char>)
    ensures
        has_prefix(prefix + rest, prefix),
        behind(prefix + rest, prefix) == rest,
        has_prefix(s, prefix) ==> s == prefix + behind(s, prefix),
{
    assert((prefix + rest).take(prefix.len() as int) =~= prefix);
    assert(behind(prefix + rest, prefix) =~= rest);
    if has_prefix(s, prefix) {
        assert(s =~= prefix + behind(s, prefix));
    }
}

/// A text is kept as it is exactly when it is not empty.
pub proof fn filled_texts_are_kept(s: Seq<char>)
    ensures
        unless_empty(s) is Some <==> s.len() > 0,
        s.len() > 0 ==> unless_empty(s) == Some(s),
{
}

} // verus!
