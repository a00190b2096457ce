use vstd::prelude::*;
use vstd::string::*;

verus! {

/// Unicode `White_Space` characters, the set that `char::is_whitespace` and `str::trim` use.
pub open spec fn is_white_space(c: char) -> bool {
    let u = c as u32;
    ||| 0x9 <= u <= 0xD
    ||| u == 0x20
    ||| u == 0x85
    ||| u == 0xA0
    ||| u == 0x1680
    ||| 0x2000 <= u <= 0x200A
    ||| u == 0x2028
    ||| u == 0x2029
    ||| u == 0x202F
    ||| u == 0x205F
    ||| u == 0x3000
}

pub fn white_space(c: char) -> (b: bool)
    ensures
        b == is_white_space(c),
{
    let u = c as u32;
    (0x9 <= u && u <= 0xD) || u == 0x20 || u == 0x85 || u == 0xA0 || u == 0x1680 || (0x2000 <= u
        && u <= 0x200A) || u == 0x2028 || u == 0x2029 || u == 0x202F || u == 0x205F || u == 0x3000
}

/// `s` without its leading white space.
pub open spec fn trim_start(s: Seq<char>) -> Seq<char>
    decreases s.len(),
{
    if s.len() > 0 && is_white_space(s[0]) {
        trim_start(s.drop_first())
    } else {
        s
    }
}

/// `s` without its trailing white space.
pub open spec fn trim_end(s: Seq<char>) -> Seq<char>
    decreases s.len(),
{
    if s.len() > 0 && is_white_space(s.last()) {
        trim_end(s.drop_last())
    } else {
        s
    }
}

/// `s` without leading and trailing white space, as `str::trim` gives it.
pub open spec fn trimmed(s: Seq<char>) -> Seq<char> {
    trim_end(trim_start(s))
}

/// Whether `s` holds a character that is not white space.
pub open spec fn has_visible_char(s: Seq<char>) -> bool {
    exists|i: int| 0 <= i < s.len() && !is_white_space(#[trigger] s[i])
}

proof fn lemma_trim_start_skip(s: Seq<char>, i: int)
    requires
        0 <= i < s.len(),
        is_white_space(s[i]),
    ensures
        trim_start(s.skip(i)) == trim_start(s.skip(i + 1)),
{
    assert(s.skip(i).drop_first() =~= s.skip(i + 1));
}

proof fn lemma_trim_end_take(s: Seq<char>, j: int)
    requires
        0 < j <= s.len(),
        is_white_space(s[j - 1]),
    ensures
        trim_end(s.take(j)) == trim_end(s.take(j - 1)),
{
    assert(s.take(j).drop_last() =~= s.take(j - 1));
}

/// Trimming leaves text empty exactly when it holds only white space.
pub proof fn lemma_trimmed_empty(s: Seq<char>)
    ensures
        trimmed(s).len() == 0 <==> !has_visible_char(s),
    decreases s.len(),
{
    if s.len() > 0 && is_white_space(s[0]) {
        lemma_trimmed_empty(s.drop_first());
        if has_visible_char(s.drop_first()) {
            let i = choose|i: int| 0 <= i < s.drop_first().len() && !is_white_space(#[trigger] s.drop_first()[i]);
            assert(!is_white_space(s[i + 1]));
        }
        if has_visible_char(s) {
            let i = choose|i: int| 0 <= i < s.len() && !is_white_space(#[trigger] s[i]);
            assert(!is_white_space(s.drop_first()[i - 1]));
        }
    } else if s.len() > 0 {
        assert(!is_white_space(s[0]));
        lemma_trim_end_keeps_visible(s);
    }
}

proof fn lemma_trim_end_keeps_visible(s: Seq<char>)
    requires
        s.len() > 0,
        !is_white_space(s[0]),
    ensures
        trim_end(s).len() > 0,
    decreases s.len(),
{
    if is_white_space(s.last()) {
        lemma_trim_end_keeps_visible(s.drop_last());
    }
}

/// The text between the first and the last character that is not white space.
pub fn trim_text(text: &str) -> (t: &str)
    ensures
        t@ == trimmed(text@),
{
    let n = text.unicode_len();
    let mut i: usize = 0;
    assert(text@.skip(0) =~= text@);
    while i < n && white_space(text.get_char(i))
        invariant
            n == text@.len(),
            i <= n,
            trim_start(text@) == trim_start(text@.skip(i as int)),
        decreases n - i,
    {
        proof {
            lemma_trim_start_skip(text@, i as int);
        }
        i = i + 1;
    }
    let ghost start = text@.skip(i as int);
    proof {
        if i < n {
            assert(start[0] == text@[i as int]);
        }
        assert(trim_start(text@) == start);
    }
    let mut j: usize = n;
    assert(start.take(n - i) =~= start);
    while j > i && white_space(text.get_char(j - 1))
        invariant
            n == text@.len(),
            i <= j <= n,
            start == text@.skip(i as int),
            trim_end(start) == trim_end(start.take(j - i)),
        decreases j,
    {
        proof {
            lemma_trim_end_take(start, (j - i) as int);
        }
        j = j - 1;
    }
    proof {
        let kept = start.take(j - i);
        if j > i {
            assert(kept.last() == text@[j - 1]);
        }
        assert(trim_end(kept) == kept);
        assert(kept =~= text@.subrange(i as int, j as int));
    }
    text.substring_char(i, j)
}


/// Whether two texts hold the same characters.
pub fn text_eq(a: &str, b: &str) -> (eq: bool)
    ensures
        eq == (a@ == b@),
{
    let n = a.unicode_len();
    if n != b.unicode_len() {
        return false;
    }
    let mut i: usize = 0;
    while i < n
        invariant
            n == a@.len(),
            n == b@.len(),
            i <= n,
            forall|k: int| 0 <= k < i ==> a@[k] == b@[k],
        decreases n - i,
    {
        if a.get_char(i) != b.get_char(i) {
            return false;
        }
        i = i + 1;
    }
    assert(a@ =~= b@);
    true
}

/// The code of `c`, with an ASCII capital letter made small; other characters unchanged.
pub open spec fn ascii_lower(c: char) -> u32 {
    if 'A' <= c <= 'Z' {
        ((c as u32) + 32) as u32
    } else {
        c as u32
    }
}

pub fn to_ascii_lower(c: char) -> (l: u32)
    ensures
        l == ascii_lower(c),
{
    if 'A' <= c && c <= 'Z' {
        (c as u32) + 32
    } else {
        c as u32
    }
}

/// Equality up to ASCII case, as `str::eq_ignore_ascii_case` decides it.
pub open spec fn eq_ascii_case_insensitive(a: Seq<char>, b: Seq<char>) -> bool {
    &&& a.len() == b.len()
    &&& forall|k: int| 0 <= k < a.len() ==> ascii_lower(#[trigger] a[k]) == ascii_lower(b[k])
}

pub fn eq_ignore_ascii_case(a: &str, b: &str) -> (eq: bool)
    ensures
        eq == eq_ascii_case_insensitive(a@, b@),
{
    let n = a.unicode_len();
    if n != b.unicode_len() {
        return false;
    }
    let mut i: usize = 0;
    while i < n
        invariant
            n == a@.len(),
            n == b@.len(),
            i <= n,
            forall|k: int| 0 <= k < i ==> ascii_lower(#[trigger] a@[k]) == ascii_lower(b@[k]),
        decreases n - i,
    {
        if to_ascii_lower(a.get_char(i)) != to_ascii_lower(b.get_char(i)) {
            return false;
        }
        i = i + 1;
    }
    true
}

/// Whether `text` holds a character that is not white space (`!text.trim().is_empty()`).
pub fn has_visible_text(text: &str) -> (b: bool)
    ensures
        b == has_visible_char(text@),
        b == (trimmed(text@).len() > 0),
{
    proof {
        lemma_trimmed_empty(text@);
    }
    !trim_text(text).is_empty()
}

} // verus!
