use vstd::prelude::*;
use vstd::std_specs::iter::IteratorSpec;

verus! {

/// Whether `c` is white space in the sense of `char::is_whitespace`: the characters
/// with Unicode's White_Space property.
pub open spec fn is_space(c: char) -> bool {
    let u = c as u32;
    (0x09 <= u <= 0x0d) || u == 0x20 || u == 0x85 || u == 0xa0 || u == 0x1680 || (0x2000 <= u
        <= 0x200a) || u == 0x2028 || u == 0x2029 || u == 0x202f || u == 0x205f || u == 0x3000
}

/// The lower-case form of `s` in the sense of `str::to_lowercase`.
pub uninterp spec fn lower_of(s: Seq<char>) -> Seq<char>;

/// Whether `c` is white space.
pub fn char_is_space(c: char) -> (r: bool)
    ensures
        r == is_space(c),
{
    let u = c as u32;
    (0x09 <= u && u <= 0x0d) || u == 0x20 || u == 0x85 || u == 0xa0 || u == 0x1680 || (0x2000
        <= u && u <= 0x200a) || u == 0x2028 || u == 0x2029 || u == 0x202f || u == 0x205f || u
        == 0x3000
}

/// Relies on `str::to_lowercase`: the result depends on the characters alone,
/// and the empty string stays empty.
#[verifier::external_body]
pub(crate) fn lowercase(s: &str) -> (r: String)
    ensures
        r@ == lower_of(s@),
        s@.len() == 0 ==> r@.len() == 0,
{
    s.to_lowercase()
}

/// The characters of `s` in order.
pub fn chars_of(s: &str) -> (r: Vec<char>)
    ensures
        r@ == s@,
{
    broadcast use vstd::string::axiom_spec_iter, vstd::string::next_postcondition;

    let mut it = s.chars();
    let mut r: Vec<char> = Vec::new();
    loop
        invariant
            r@ + IteratorSpec::remaining(&it) == s@,
            it.obeys_prophetic_iter_laws(),
            IteratorSpec::decrease(&it) is Some,
        ensures
            r@ == s@,
        decreases IteratorSpec::decrease(&it)->0,
    {
        let ghost before = IteratorSpec::remaining(&it);
        match it.next() {
            Some(c) => {
                r.push(c);
                assert(r@ + IteratorSpec::remaining(&it) =~= s@) by {
                    assert(before =~= seq![c] + IteratorSpec::remaining(&it));
                }
            },
            None => {
                assert(r@ =~= s@);
                break ;
            },
        }
    }
    r
}

/// Relies on `String`'s `FromIterator<&char>`: the string made of the characters of `v`.
#[verifier::external_body]
pub(crate) fn string_of(v: &Vec<char>) -> (r: String)
    ensures
        r@ == v@,
{
    v.iter().collect()
}

/// `s` without its leading white space.
pub open spec fn trim_start(s: Seq<char>) -> Seq<char>
    decreases s.len(),
{
    if s.len() > 0 && is_space(s[0]) {
        trim_start(s.drop_first())
    } else {
        s
    }
}

/// `s` without its trailing white space.
pub open spec fn trim_end(s: Seq<char>) -> Seq<char>
    decreases s.len(),
{
    if s.len() > 0 && is_space(s.last()) {
        trim_end(s.drop_last())
    } else {
        s
    }
}

/// `s` without white space at either end.
pub open spec fn trim(s: Seq<char>) -> Seq<char> {
    trim_end(trim_start(s))
}

/// `s` without the line feeds at its end.
pub open spec fn trim_end_newlines(s: Seq<char>) -> Seq<char>
    decreases s.len(),
{
    if s.len() > 0 && s.last() == '\n' {
        trim_end_newlines(s.drop_last())
    } else {
        s
    }
}

/// Whether `needle` occurs in `hay` as a contiguous run.
pub open spec fn contains_run(hay: Seq<char>, needle: Seq<char>) -> bool {
    exists|i: int|
        0 <= i && i + needle.len() <= hay.len() && #[trigger] hay.subrange(i, i + needle.len())
            == needle
}

/// The tags already closed by a comma, and the segment being read, after reading `s`.
pub open spec fn tags_read(s: Seq<char>) -> (Seq<Seq<char>>, Seq<char>)
    decreases s.len(),
{
    if s.len() == 0 {
        (seq![], seq![])
    } else {
        let (done, cur) = tags_read(s.drop_last());
        if s.last() == ',' {
            (close_tag(done, cur), seq![])
        } else {
            (done, cur.push(s.last()))
        }
    }
}

/// `done` followed by the trimmed `segment`, unless that is empty.
pub open spec fn close_tag(done: Seq<Seq<char>>, segment: Seq<char>) -> Seq<Seq<char>> {
    if trim(segment).len() > 0 {
        done.push(trim(segment))
    } else {
        done
    }
}

/// The tags of a comma separated input: each segment trimmed, empty ones left out.
pub open spec fn parse_tags(s: Seq<char>) -> Seq<Seq<char>> {
    let (done, cur) = tags_read(s);
    close_tag(done, cur)
}

/// The tags written one after another, separated by a comma and a space.
pub open spec fn join_tags(tags: Seq<Seq<char>>) -> Seq<char>
    decreases tags.len(),
{
    if tags.len() == 0 {
        seq![]
    } else if tags.len() == 1 {
        tags[0]
    } else {
        join_tags(tags.drop_last()) + seq![',', ' '] + tags.last()
    }
}

/// The views of a sequence of strings.
pub open spec fn views(v: Seq<String>) -> Seq<Seq<char>> {
    v.map_values(|s: String| s@)
}

/// The run `v[lo..hi]` as a new vector.
fn copy_run(v: &Vec<char>, lo: usize, hi: usize) -> (r: Vec<char>)
    requires
        lo <= hi <= v@.len(),
    ensures
        r@ == v@.subrange(lo as int, hi as int),
{
    let mut r: Vec<char> = Vec::new();
    let mut k: usize = lo;
    while k < hi
        invariant
            lo <= k <= hi <= v@.len(),
            r@ == v@.subrange(lo as int, k as int),
        decreases hi - k,
    {
        r.push(v[k]);
        assert(r@ =~= v@.subrange(lo as int, k + 1));
        k = k + 1;
    }
    r
}

/// The characters of `v` without white space at either end.
pub fn trim_chars(v: &Vec<char>) -> (r: Vec<char>)
    ensures
        r@ == trim(v@),
{
    let n = v.len();
    let mut lo: usize = 0;
    assert(v@.subrange(0, n as int) =~= v@);
    while lo < n && char_is_space(v[lo])
        invariant
            lo <= n == v@.len(),
            trim_start(v@) == trim_start(v@.subrange(lo as int, n as int)),
        decreases n - lo,
    {
        assert(v@.subrange(lo as int, n as int).drop_first() =~= v@.subrange(lo + 1, n as int));
        lo = lo + 1;
    }
    assert(trim_start(v@) == v@.subrange(lo as int, n as int));
    let mut hi: usize = n;
    while hi > lo && char_is_space(v[hi - 1])
        invariant
            lo <= hi <= n == v@.len(),
            trim(v@) == trim_end(v@.subrange(lo as int, hi as int)),
        decreases hi,
    {
        assert(v@.subrange(lo as int, hi as int).drop_last() =~= v@.subrange(
            lo as int,
            hi - 1,
        ));
        hi = hi - 1;
    }
    copy_run(v, lo, hi)
}

/// The characters of `v` without the line feeds at its end.
pub fn trim_newlines_end(v: &Vec<char>) -> (r: Vec<char>)
    ensures
        r@ == trim_end_newlines(v@),
{
    let mut hi: usize = v.len();
    assert(v@.subrange(0, hi as int) =~= v@);
    while hi > 0 && v[hi - 1] == '\n'
        invariant
            hi <= v@.len(),
            trim_end_newlines(v@) == trim_end_newlines(v@.subrange(0, hi as int)),
        decreases hi,
    {
        assert(v@.subrange(0, hi as int).drop_last() =~= v@.subrange(0, hi - 1));
        hi = hi - 1;
    }
    copy_run(v, 0, hi)
}

/// Whether `s` holds nothing but white space.
pub fn is_blank(s: &str) -> (r: bool)
    ensures
        r == (trim(s@).len() == 0),
{
    trim_chars(&chars_of(s)).len() == 0
}

/// Whether `needle` occurs in `hay`.
pub fn contains_chars(hay: &Vec<char>, needle: &Vec<char>) -> (r: bool)
    ensures
        r == contains_run(hay@, needle@),
{
    let n = needle.len();
    if n == 0 {
        assert(hay@.subrange(0, 0 + needle@.len() as int) =~= needle@);
        return true;
    }
    if n > hay.len() {
        return false;
    }
    let last = hay.len() - n;
    let mut i: usize = 0;
    while i <= last
        invariant
            n == needle@.len(),
            n > 0,
            last + n == hay.len(),
            forall|j: int| 0 <= j < i ==> #[trigger] hay@.subrange(j, j + n) != needle@,
        decreases last + 1 - i,
    {
        let mut k: usize = 0;
        while k < n
            invariant
                n == needle@.len(),
                i <= last,
                last + n == hay.len(),
                k <= n,
                forall|t: int| 0 <= t < k ==> hay@[i + t] == needle@[t],
            ensures
                k <= n,
                forall|t: int| 0 <= t < k ==> hay@[i + t] == needle@[t],
                k < n ==> hay@[i + k] != needle@[k as int],
            decreases n - k,
        {
            if hay[i + k] != needle[k] {
                break;
            }
            k = k + 1;
        }
        if k == n {
            assert(hay@.subrange(i as int, i + n) =~= needle@);
            return true;
        }
        assert(hay@.subrange(i as int, i + n)[k as int] != needle@[k as int]);
        i = i + 1;
    }
    assert forall|j: int| 0 <= j && j + needle@.len() <= hay@.len() implies #[trigger] hay@.subrange(
        j,
        j + needle@.len(),
    ) != needle@ by {
        assert(j < i);
    }
    false
}

/// Whether a title matches a search query, both already in lower case:
/// an empty query matches every title, any other one where it occurs in it.
pub open spec fn title_matches(query: Seq<char>, title: Seq<char>) -> bool {
    query.len() == 0 || contains_run(title, query)
}

/// Whether `title` matches `query`, both already in lower case.
pub fn matches_folded(query: &str, title: &str) -> (r: bool)
    ensures
        r == title_matches(query@, title@),
{
    let q = chars_of(query);
    if q.len() == 0 {
        true
    } else {
        contains_chars(&chars_of(title), &q)
    }
}

/// Splits a comma separated input into tags, each trimmed, empty ones left out.
pub fn split_tags(input: &str) -> (r: Vec<String>)
    ensures
        views(r@) == parse_tags(input@),
{
    let v = chars_of(input);
    let n = v.len();
    let mut done: Vec<String> = Vec::new();
    let mut cur: Vec<char> = Vec::new();
    let mut i: usize = 0;
    while i < n
        invariant
            i <= n == v@.len(),
            (views(done@), cur@) == tags_read(v@.subrange(0, i as int)),
        decreases n - i,
    {
        let ghost before = v@.subrange(0, i as int);
        assert(v@.subrange(0, i + 1).drop_last() =~= before);
        if v[i] == ',' {
            push_tag(&mut done, &cur);
            cur = Vec::new();
        } else {
            cur.push(v[i]);
        }
        i = i + 1;
    }
    assert(v@.subrange(0, n as int) =~= v@);
    push_tag(&mut done, &cur);
    done
}

/// Appends the trimmed `segment` to `done`, unless it is empty.
fn push_tag(done: &mut Vec<String>, segment: &Vec<char>)
    ensures
        views(final(done)@) == close_tag(views(old(done)@), segment@),
{
    let t = trim_chars(segment);
    if t.len() > 0 {
        let s = string_of(&t);
        let ghost before = done@;
        done.push(s);
        assert(views(done@) =~= views(before).push(t@));
    }
}

/// The tags joined by a comma and a space.
pub fn join(tags: &Vec<String>) -> (r: String)
    ensures
        r@ == join_tags(views(tags@)),
{
    let mut acc: Vec<char> = Vec::new();
    let mut i: usize = 0;
    while i < tags.len()
        invariant
            i <= tags@.len(),
            acc@ == join_tags(views(tags@.subrange(0, i as int))),
        decreases tags@.len() - i,
    {
        let ghost prev = acc@;
        let t = chars_of(tags[i].as_str());
        if i > 0 {
            acc.push(',');
            acc.push(' ');
        }
        let mut k: usize = 0;
        while k < t.len()
            invariant
                k <= t@.len(),
                i > 0 ==> acc@ == prev + seq![',', ' '] + t@.subrange(0, k as int),
                i == 0 ==> acc@ == prev + t@.subrange(0, k as int),
            decreases t@.len() - k,
        {
            acc.push(t[k]);
            assert(t@.subrange(0, k + 1) =~= t@.subrange(0, k as int).push(t@[k as int]));
            k = k + 1;
        }
        assert(t@.subrange(0, t@.len() as int) =~= t@);
        let ghost next = views(tags@.subrange(0, i + 1));
        assert(next.drop_last() =~= views(tags@.subrange(0, i as int)));
        assert(next.last() == tags@[i as int]@);
        if i == 0 {
            assert(prev =~= seq![]);
            assert(acc@ =~= t@);
        } else {
            assert(acc@ =~= prev + seq![',', ' '] + t@);
        }
        i = i + 1;
    }
    assert(tags@.subrange(0, tags@.len() as int) =~= tags@);
    string_of(&acc)
}

} // verus!
