//! Text operations on extracted field values: trimming, the author part of
//! a combined title, and the last segment of a URL path.
use vstd::prelude::*;

verus! {

/// The characters with the Unicode `White_Space` property, which is what
/// `char::is_whitespace` tests.
pub open spec fn is_ws(c: char) -> bool {
    let u = c as u32;
    (9 <= u && u <= 13) || u == 32 || u == 0x85 || u == 0xA0 || u == 0x1680 || (0x2000 <= u
        && u <= 0x200A) || u == 0x2028 || u == 0x2029 || u == 0x202F || u == 0x205F || u
        == 0x3000
}

/// `s` without its leading whitespace.
pub open spec fn trim_start(s: Seq<char>) -> Seq<char>
    decreases s.len(),
{
    if s.len() > 0 && is_ws(s[0]) {
        trim_start(s.drop_first())
    } else {
        s
    }
}

/// `s` without its trailing whitespace.
pub open spec fn trim_end(s: Seq<char>) -> Seq<char>
    decreases s.len(),
{
    if s.len() > 0 && is_ws(s.last()) {
        trim_end(s.drop_last())
    } else {
        s
    }
}

/// `s` without leading and trailing whitespace.
pub open spec fn trimmed(s: Seq<char>) -> Seq<char> {
    trim_end(trim_start(s))
}

/// Whether a separator `" - "` starts at position `i` of `s`.
pub open spec fn sep_at(s: Seq<char>, i: int) -> bool {
    0 <= i && i + 3 <= s.len() && s[i] == ' ' && s[i + 1] == '-' && s[i + 2] == ' '
}

/// The part of `s` before the first separator at or after position `i`, or
/// all of `s` when there is none.
pub open spec fn author_from(s: Seq<char>, i: int) -> Seq<char>
    decreases s.len() - i,
{
    if i < 0 || i + 3 > s.len() {
        s
    } else if sep_at(s, i) {
        s.subrange(0, i)
    } else {
        author_from(s, i + 1)
    }
}

/// The author part of a combined title: what comes before the first `" - "`,
/// or the whole title when it holds no separator.
pub open spec fn author_of(s: Seq<char>) -> Seq<char> {
    author_from(s, 0)
}

/// What follows the last `'/'` of `s`, or all of `s` when it holds none.
pub open spec fn last_segment(s: Seq<char>) -> Seq<char>
    decreases s.len(),
{
    if s.len() == 0 {
        s
    } else if s.last() == '/' {
        Seq::empty()
    } else {
        last_segment(s.drop_last()).push(s.last())
    }
}

/// Whether `c` is whitespace.
pub fn is_white_space(c: char) -> (r: bool)
    ensures
        r == is_ws(c),
{
    let u = c as u32;
    (9 <= u && u <= 13) || u == 32 || u == 0x85 || u == 0xA0 || u == 0x1680 || (0x2000 <= u
        && u <= 0x200A) || u == 0x2028 || u == 0x2029 || u == 0x202F || u == 0x205F || u
        == 0x3000
}

/// `s` with leading and trailing whitespace removed.
pub fn trim_text(s: &str) -> (r: String)
    ensures
        r@ == trimmed(s@),
{
    let n = s.unicode_len();
    let mut i: usize = 0;
    proof {
        assert(s@.subrange(0, n as int) =~= s@);
    }
    while i < n && is_white_space(s.get_char(i))
        invariant
            n == s@.len(),
            i <= n,
            trim_start(s@) == trim_start(s@.subrange(i as int, n as int)),
        decreases n - i,
    {
        proof {
            let t = s@.subrange(i as int, n as int);
            assert(t.drop_first() =~= s@.subrange(i + 1, n as int));
        }
        i = i + 1;
    }
    proof {
        assert(trim_start(s@) =~= s@.subrange(i as int, n as int));
    }
    let mut j: usize = n;
    while j > i && is_white_space(s.get_char(j - 1))
        invariant
            n == s@.len(),
            i <= j <= n,
            trimmed(s@) == trim_end(s@.subrange(i as int, j as int)),
        decreases j - i,
    {
        proof {
            let t = s@.subrange(i as int, j as int);
            assert(t.drop_last() =~= s@.subrange(i as int, j - 1));
        }
        j = j - 1;
    }
    proof {
        assert(trimmed(s@) =~= s@.subrange(i as int, j as int));
    }
    String::from_str(s.substring_char(i, j))
}

/// The author part of a combined title, as `author_of` describes it.
pub fn author_name(s: &str) -> (r: String)
    ensures
        r@ == author_of(s@),
{
    let n = s.unicode_len();
    let mut i: usize = 0;
    while i < n && n - i >= 3
        invariant
            n == s@.len(),
            i <= n,
            author_of(s@) == author_from(s@, i as int),
        decreases n - i,
    {
        if s.get_char(i) == ' ' && s.get_char(i + 1) == '-' && s.get_char(i + 2) == ' ' {
            return String::from_str(s.substring_char(0, i));
        }
        i = i + 1;
    }
    String::from_str(s)
}

/// What follows the last `'/'` of `s`, as `last_segment` describes it.
pub fn last_path_segment(s: &str) -> (r: String)
    ensures
        r@ == last_segment(s@),
{
    let n = s.unicode_len();
    let mut j: usize = n;
    proof {
        assert(s@.subrange(0, n as int) =~= s@);
        assert(s@.subrange(n as int, n as int) =~= Seq::<char>::empty());
    }
    while j > 0 && s.get_char(j - 1) != '/'
        invariant
            n == s@.len(),
            j <= n,
            last_segment(s@) == last_segment(s@.subrange(0, j as int)) + s@.subrange(
                j as int,
                n as int,
            ),
        decreases j,
    {
        proof {
            let p = s@.subrange(0, j as int);
            assert(p.drop_last() =~= s@.subrange(0, j - 1));
            assert(last_segment(p) == last_segment(p.drop_last()).push(p.last()));
            assert(last_segment(p.drop_last()).push(p.last()) + s@.subrange(j as int, n as int)
                =~= last_segment(p.drop_last()) + s@.subrange(j - 1, n as int));
        }
        j = j - 1;
    }
    proof {
        let p = s@.subrange(0, j as int);
        if j == 0 {
            assert(p =~= Seq::<char>::empty());
        }
        assert(last_segment(p) =~= Seq::<char>::empty());
        assert(last_segment(s@) =~= s@.subrange(j as int, n as int));
    }
    String::from_str(s.substring_char(j, n))
}

} // verus!

verus! {

proof fn lemma_author_from(s: Seq<char>, i: int)
    requires
        0 <= i,
    ensures
        author_from(s, i).len() <= s.len(),
        author_from(s, i) == s.subrange(0, author_from(s, i).len() as int),
        author_from(s, i).len() < s.len() ==> i <= author_from(s, i).len() && sep_at(
            s,
            author_from(s, i).len() as int,
        ),
        forall|j: int| i <= j < author_from(s, i).len() ==> !sep_at(s, j),
        author_from(s, i).len() == s.len() ==> forall|j: int| i <= j ==> !sep_at(s, j),
    decreases s.len() - i,
{
    if i + 3 > s.len() {
        assert(s.subrange(0, s.len() as int) =~= s);
    } else if sep_at(s, i) {
    } else {
        lemma_author_from(s, i + 1);
    }
}

/// The author is the text before the first `" - "` of the combined title:
/// a prefix of it, with no separator starting inside it, followed by a
/// separator when it is shorter than the title; and a title that holds no
/// separator is its own author.
pub proof fn lemma_author_before_first_separator(s: Seq<char>)
    ensures
        author_of(s).len() <= s.len(),
        author_of(s) == s.subrange(0, author_of(s).len() as int),
        author_of(s).len() < s.len() ==> sep_at(s, author_of(s).len() as int),
        forall|j: int| 0 <= j < author_of(s).len() ==> !sep_at(s, j),
        (forall|j: int| !sep_at(s, j)) ==> author_of(s) == s,
{
    lemma_author_from(s, 0);
    if forall|j: int| !sep_at(s, j) {
        if author_of(s).len() < s.len() {
            assert(sep_at(s, author_of(s).len() as int));
        }
        assert(author_of(s) =~= s);
    }
}

/// The identifier taken from a URL is what follows its last `'/'`: for a
/// prefix `p`, a slash and a tail `t` without slashes, it is `t`.
pub proof fn lemma_last_segment_after_last_slash(p: Seq<char>, t: Seq<char>)
    requires
        forall|i: int| 0 <= i < t.len() ==> t[i] != '/',
    ensures
        last_segment(p + seq!['/'] + t) == t,
    decreases t.len(),
{
    let s = p + seq!['/'] + t;
    if t.len() == 0 {
        assert(s.last() == '/');
        assert(last_segment(s) =~= t);
    } else {
        let t2 = t.drop_last();
        assert(s.drop_last() =~= p + seq!['/'] + t2);
        lemma_last_segment_after_last_slash(p, t2);
        assert(s.last() == t.last());
        assert(t2.push(t.last()) =~= t);
    }
}

} // verus!
