//! Character-sequence helpers shared by the classifier and the dispatcher.

use vstd::prelude::*;

verus! {

/// `p` is a prefix of `s`.
pub open spec fn has_prefix(s: Seq<char>, p: Seq<char>) -> bool {
    p.len() <= s.len() && s.subrange(0, p.len() as int) == p
}

/// `p` is a suffix of `s`.
pub open spec fn has_suffix(s: Seq<char>, p: Seq<char>) -> bool {
    p.len() <= s.len() && s.subrange(s.len() - p.len(), s.len() as int) == p
}

/// `p` occurs in `s` starting at index `i`.
pub open spec fn occurs_at(s: Seq<char>, p: Seq<char>, i: int) -> bool {
    0 <= i && i + p.len() <= s.len() && s.subrange(i, i + p.len()) == p
}

/// `p` occurs somewhere in `s`.
pub open spec fn has_substring(s: Seq<char>, p: Seq<char>) -> bool {
    exists|i: int| occurs_at(s, p, i)
}

/// Every forward slash of `s` turned into a backslash.
pub open spec fn backslashed(s: Seq<char>) -> Seq<char> {
    s.map_values(|c: char| if c == '/' { '\\' } else { c })
}

/// The lower-case form that `str::to_lowercase` gives for `s`.
pub uninterp spec fn lower_of(s: Seq<char>) -> Seq<char>;

/// Relies on `str::to_lowercase`: the result depends on the characters alone.
#[verifier::external_body]
pub(crate) fn lowercase(s: &str) -> (r: String)
    ensures
        r@ == lower_of(s@),
{
    s.to_lowercase()
}

/// What `str::trim` leaves of `s`.
pub uninterp spec fn trim_of(s: Seq<char>) -> Seq<char>;

/// Relies on `str::trim`: leading and trailing white space removed, a result
/// that depends on the characters alone.
#[verifier::external_body]
pub(crate) fn trimmed(s: &str) -> (r: String)
    ensures
        r@ == trim_of(s@),
{
    s.trim().to_string()
}

/// The characters of `s`, one by one.
pub fn chars_of(s: &str) -> (r: Vec<char>)
    ensures
        r@ == s@,
{
    let mut r: Vec<char> = Vec::new();
    for c in it: s.chars()
        invariant
            r@ == it.seq().take(it.index() as int),
            it.seq() == s@,
    {
        r.push(c);
    }
    r
}

/// Whether `p` is a prefix of `s`.
pub fn starts_with(s: &Vec<char>, p: &Vec<char>) -> (r: bool)
    ensures
        r == has_prefix(s@, p@),
{
    if p.len() > s.len() {
        return false;
    }
    let mut i: usize = 0;
    while i < p.len()
        invariant
            p.len() <= s.len(),
            i <= p.len(),
            forall|k: int| 0 <= k < i ==> s@[k] == p@[k],
        decreases p.len() - i,
    {
        if s[i] != p[i] {
            assert(s@.subrange(0, p.len() as int)[i as int] != p@[i as int]);
            return false;
        }
        i = i + 1;
    }
    assert(s@.subrange(0, p.len() as int) =~= p@);
    true
}

/// Whether `p` is a suffix of `s`.
pub fn ends_with(s: &Vec<char>, p: &Vec<char>) -> (r: bool)
    ensures
        r == has_suffix(s@, p@),
{
    if p.len() > s.len() {
        return false;
    }
    let off: usize = s.len() - p.len();
    let mut i: usize = 0;
    while i < p.len()
        invariant
            p.len() <= s.len(),
            off == s.len() - p.len(),
            i <= p.len(),
            forall|k: int| 0 <= k < i ==> s@[off + k] == p@[k],
        decreases p.len() - i,
    {
        if s[off + i] != p[i] {
            assert(s@.subrange(off as int, s.len() as int)[i as int] != p@[i as int]);
            return false;
        }
        i = i + 1;
    }
    assert(s@.subrange(off as int, s.len() as int) =~= p@);
    true
}

/// Whether `p` occurs in `s` at index `at`.
fn matches_at(s: &Vec<char>, p: &Vec<char>, at: usize) -> (r: bool)
    requires
        at + p.len() <= s.len(),
    ensures
        r == occurs_at(s@, p@, at as int),
{
    let mut i: usize = 0;
    while i < p.len()
        invariant
            at + p.len() <= s.len(),
            i <= p.len(),
            forall|k: int| 0 <= k < i ==> s@[at + k] == p@[k],
        decreases p.len() - i,
    {
        if s[at + i] != p[i] {
            assert(s@.subrange(at as int, at + p.len())[i as int] != p@[i as int]);
            return false;
        }
        i = i + 1;
    }
    assert(s@.subrange(at as int, at + p.len()) =~= p@);
    true
}

/// Whether `p` occurs anywhere in `s`.
pub fn contains(s: &Vec<char>, p: &Vec<char>) -> (r: bool)
    ensures
        r == has_substring(s@, p@),
{
    if p.len() > s.len() {
        return false;
    }
    let last: usize = s.len() - p.len();
    let mut i: usize = 0;
    loop
        invariant
            p.len() <= s.len(),
            last == s.len() - p.len(),
            i <= last,
            forall|k: int| 0 <= k < i ==> !occurs_at(s@, p@, k),
        decreases last - i,
    {
        if matches_at(s, p, i) {
            return true;
        }
        if i == last {
            assert forall|k: int| occurs_at(s@, p@, k) implies false by {
                assert(0 <= k <= last);
            }
            return false;
        }
        i = i + 1;
    }
}

/// Relies on `String::push`: appends one character.
#[verifier::external_body]
pub(crate) fn push_char(s: &mut String, c: char)
    ensures
        final(s)@ == old(s)@.push(c),
{
    s.push(c);
}

/// The characters of `s` with each forward slash turned into a backslash.
pub fn to_backslashes(s: &str) -> (r: String)
    ensures
        r@ == backslashed(s@),
{
    let mut r = String::new();
    for c in it: s.chars()
        invariant
            it.seq() == s@,
            r@ == backslashed(it.seq().take(it.index() as int)),
    {
        let d = if c == '/' { '\\' } else { c };
        proof {
            assert(it.seq().take(it.index() + 1) =~= it.seq().take(it.index() as int).push(c));
            assert(backslashed(it.seq().take(it.index() + 1)) =~= backslashed(
                it.seq().take(it.index() as int),
            ).push(d));
        }
        push_char(&mut r, d);
    }
    r
}

/// The views of a list of string slices.
pub open spec fn views_of(v: Seq<&str>) -> Seq<Seq<char>> {
    v.map_values(|s: &str| s@)
}

/// Some entry of `list` is a prefix of `s`.
pub open spec fn prefix_in(s: Seq<char>, list: Seq<Seq<char>>) -> bool {
    exists|i: int| 0 <= i < list.len() && has_prefix(s, #[trigger] list[i])
}

/// Some entry of `list` occurs in `s`.
pub open spec fn substring_in(s: Seq<char>, list: Seq<Seq<char>>) -> bool {
    exists|i: int| 0 <= i < list.len() && has_substring(s, #[trigger] list[i])
}

/// The index of the first entry of `list`, from index `i` on, that is a prefix of `s`.
pub open spec fn first_prefix_from(s: Seq<char>, list: Seq<Seq<char>>, i: int) -> Option<int>
    decreases list.len() - i,
{
    if i < 0 || i >= list.len() {
        None
    } else if has_prefix(s, list[i]) {
        Some(i)
    } else {
        first_prefix_from(s, list, i + 1)
    }
}

/// The index of the first entry of `list` that is a prefix of `s`.
pub open spec fn first_prefix(s: Seq<char>, list: Seq<Seq<char>>) -> Option<int> {
    first_prefix_from(s, list, 0)
}

/// The index of the first entry of `list`, from index `i` on, that occurs in `s`.
pub open spec fn first_substring_from(s: Seq<char>, list: Seq<Seq<char>>, i: int) -> Option<int>
    decreases list.len() - i,
{
    if i < 0 || i >= list.len() {
        None
    } else if has_substring(s, list[i]) {
        Some(i)
    } else {
        first_substring_from(s, list, i + 1)
    }
}

/// The index of the first entry of `list` that occurs in `s`.
pub open spec fn first_substring(s: Seq<char>, list: Seq<Seq<char>>) -> Option<int> {
    first_substring_from(s, list, 0)
}

/// The index of the first entry of `list` that is a prefix of `s`.
pub fn find_prefix(s: &Vec<char>, list: &Vec<&str>) -> (r: Option<usize>)
    ensures
        r is None <==> !prefix_in(s@, views_of(list@)),
        r matches Some(i) ==> i < list.len() && has_prefix(s@, list@[i as int]@),
        r is None ==> first_prefix(s@, views_of(list@)) is None,
        r matches Some(i) ==> first_prefix(s@, views_of(list@)) == Some(i as int),
{
    let mut i: usize = 0;
    while i < list.len()
        invariant
            i <= list.len(),
            forall|k: int| 0 <= k < i ==> !has_prefix(s@, #[trigger] list@[k]@),
            first_prefix(s@, views_of(list@)) == first_prefix_from(s@, views_of(list@), i as int),
        decreases list.len() - i,
    {
        let p = chars_of(list[i]);
        assert(views_of(list@)[i as int] == list@[i as int]@);
        if starts_with(s, &p) {
            return Some(i);
        }
        i = i + 1;
    }
    assert forall|k: int| 0 <= k < views_of(list@).len() implies !has_prefix(
        s@,
        #[trigger] views_of(list@)[k],
    ) by {
        assert(views_of(list@)[k] == list@[k]@);
    }
    None
}

/// The index of the first entry of `list` that occurs in `s`.
pub fn find_substring(s: &Vec<char>, list: &Vec<&str>) -> (r: Option<usize>)
    ensures
        r is None <==> !substring_in(s@, views_of(list@)),
        r matches Some(i) ==> i < list.len() && has_substring(s@, list@[i as int]@),
        r is None ==> first_substring(s@, views_of(list@)) is None,
        r matches Some(i) ==> first_substring(s@, views_of(list@)) == Some(i as int),
{
    let mut i: usize = 0;
    while i < list.len()
        invariant
            i <= list.len(),
            forall|k: int| 0 <= k < i ==> !has_substring(s@, #[trigger] list@[k]@),
            first_substring(s@, views_of(list@)) == first_substring_from(
                s@,
                views_of(list@),
                i as int,
            ),
        decreases list.len() - i,
    {
        let p = chars_of(list[i]);
        assert(views_of(list@)[i as int] == list@[i as int]@);
        if contains(s, &p) {
            return Some(i);
        }
        i = i + 1;
    }
    assert forall|k: int| 0 <= k < views_of(list@).len() implies !has_substring(
        s@,
        #[trigger] views_of(list@)[k],
    ) by {
        assert(views_of(list@)[k] == list@[k]@);
    }
    None
}

/// Some entry of `list` is a suffix of `s`.
pub open spec fn suffix_in(s: Seq<char>, list: Seq<Seq<char>>) -> bool {
    exists|i: int| 0 <= i < list.len() && has_suffix(s, #[trigger] list[i])
}

/// Whether some entry of `list` is a suffix of `s`.
pub fn any_suffix(s: &Vec<char>, list: &Vec<&str>) -> (r: bool)
    ensures
        r == suffix_in(s@, views_of(list@)),
{
    let mut i: usize = 0;
    while i < list.len()
        invariant
            i <= list.len(),
            forall|k: int| 0 <= k < i ==> !has_suffix(s@, #[trigger] list@[k]@),
        decreases list.len() - i,
    {
        let p = chars_of(list[i]);
        if ends_with(s, &p) {
            assert(views_of(list@)[i as int] == list@[i as int]@);
            return true;
        }
        i = i + 1;
    }
    assert forall|k: int| 0 <= k < views_of(list@).len() implies !has_suffix(
        s@,
        #[trigger] views_of(list@)[k],
    ) by {
        assert(views_of(list@)[k] == list@[k]@);
    }
    false
}

/// Whether `s` and `t` hold the same characters.
pub fn same_chars(s: &Vec<char>, t: &Vec<char>) -> (r: bool)
    ensures
        r == (s@ == t@),
{
    let r = s.len() == t.len() && starts_with(s, t);
    proof {
        if s.len() == t.len() && has_prefix(s@, t@) {
            assert(s@ =~= s@.subrange(0, t.len() as int));
        }
        if s@ == t@ {
            assert(s@.subrange(0, t.len() as int) =~= t@);
        }
    }
    r
}

/// The text of `s` with its last character dropped when that is a space.
pub open spec fn without_trailing_space(s: Seq<char>) -> Seq<char> {
    if s.len() > 0 && s.last() == ' ' {
        s.drop_last()
    } else {
        s
    }
}

/// The characters of `s` without a trailing space.
pub fn chars_without_trailing_space(s: &str) -> (r: Vec<char>)
    ensures
        r@ == without_trailing_space(s@),
{
    let mut r = chars_of(s);
    if r.len() > 0 && r[r.len() - 1] == ' ' {
        r.pop();
        assert(r@ =~= s@.drop_last());
    }
    r
}

/// Appends the characters of `t` to `s`.
pub fn append_chars(s: &mut String, t: &Vec<char>)
    ensures
        final(s)@ == old(s)@ + t@,
{
    let mut i: usize = 0;
    while i < t.len()
        invariant
            i <= t.len(),
            s@ == old(s)@ + t@.take(i as int),
        decreases t.len() - i,
    {
        push_char(s, t[i]);
        assert(t@.take(i + 1) =~= t@.take(i as int).push(t@[i as int]));
        i = i + 1;
    }
    assert(t@.take(t.len() as int) =~= t@);
}

/// `s` with each `c1` written as `r1` and each `c2` as `r2`.
pub open spec fn replaced(s: Seq<char>, c1: char, r1: Seq<char>, c2: char, r2: Seq<char>) -> Seq<char>
    decreases s.len(),
{
    if s.len() == 0 {
        Seq::empty()
    } else {
        replaced(s.drop_last(), c1, r1, c2, r2) + (if s.last() == c1 {
            r1
        } else if s.last() == c2 {
            r2
        } else {
            seq![s.last()]
        })
    }
}

/// `s` with each `c1` written as `r1` and each `c2` as `r2`.
pub fn replace_chars(s: &str, c1: char, r1: &str, c2: char, r2: &str) -> (r: String)
    ensures
        r@ == replaced(s@, c1, r1@, c2, r2@),
{
    let v = chars_of(s);
    let mut out = String::new();
    let mut i: usize = 0;
    while i < v.len()
        invariant
            v@ == s@,
            i <= v.len(),
            out@ == replaced(v@.take(i as int), c1, r1@, c2, r2@),
        decreases v.len() - i,
    {
        let c = v[i];
        proof {
            let t = v@.take(i + 1);
            assert(t.drop_last() =~= v@.take(i as int));
            assert(t.last() == c);
        }
        if c == c1 {
            out = out.concat(r1);
        } else if c == c2 {
            out = out.concat(r2);
        } else {
            push_char(&mut out, c);
        }
        i = i + 1;
    }
    assert(v@.take(v.len() as int) =~= s@);
    out
}

/// The text `s` as a `String`.
pub fn string_of(s: &str) -> (r: String)
    ensures
        r@ == s@,
{
    String::from_str(s)
}

} // verus!
