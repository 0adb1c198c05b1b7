//! Character-level text helpers: whitespace, trimming, prefixes, decimal
//! numbers, padding and joining, each with a specification over `Seq<char>`.

use vstd::prelude::*;

verus! {

/// Whether `c` carries the Unicode `White_Space` property (what `char::is_whitespace` tests).
pub open spec fn is_space(c: char) -> bool {
    let u = c as u32;
    ||| 0x09 <= u <= 0x0d
    ||| u == 0x20
    ||| u == 0x85
    ||| u == 0xa0
    ||| u == 0x1680
    ||| 0x2000 <= u <= 0x200a
    ||| u == 0x2028
    ||| u == 0x2029
    ||| u == 0x202f
    ||| u == 0x205f
    ||| u == 0x3000
}

/// `s` without its leading whitespace.
pub open spec fn trim_start(s: Seq<char>) -> Seq<char>
    decreases s.len(),
{
    if s.len() > 0 && is_space(s[0]) {
        trim_start(s.drop_first())
    } else {
        s
    }
}

/// `s` without its trailing whitespace.
pub open spec fn trim_end(s: Seq<char>) -> Seq<char>
    decreases s.len(),
{
    if s.len() > 0 && is_space(s.last()) {
        trim_end(s.drop_last())
    } else {
        s
    }
}

/// `s` without leading and trailing whitespace (what `str::trim` returns).
pub open spec fn trim(s: Seq<char>) -> Seq<char> {
    trim_end(trim_start(s))
}

proof fn lemma_trim_start_shape(s: Seq<char>)
    ensures
        trim_start(s).len() == 0 || !is_space(trim_start(s)[0]),
    decreases s.len(),
{
    if s.len() > 0 && is_space(s[0]) {
        lemma_trim_start_shape(s.drop_first());
    }
}

proof fn lemma_trim_end_shape(s: Seq<char>)
    ensures
        trim_end(s).len() <= s.len(),
        trim_end(s) == s.subrange(0, trim_end(s).len() as int),
        trim_end(s).len() == 0 || !is_space(trim_end(s).last()),
    decreases s.len(),
{
    if s.len() > 0 && is_space(s.last()) {
        lemma_trim_end_shape(s.drop_last());
        let t = trim_end(s.drop_last());
        assert(s.drop_last().subrange(0, t.len() as int) =~= s.subrange(0, t.len() as int));
    } else {
        assert(s.subrange(0, s.len() as int) =~= s);
    }
}

/// Trimming twice trims no more than trimming once: text without surrounding
/// whitespace keeps all of its characters when trimmed again.
pub proof fn lemma_trim_idempotent(s: Seq<char>)
    ensures
        trim(trim(s)) == trim(s),
{
    let a = trim_start(s);
    let u = trim_end(a);
    lemma_trim_start_shape(s);
    lemma_trim_end_shape(a);
    if u.len() > 0 {
        assert(u[0] == a[0]);
    }
    assert(trim_start(u) == u);
    assert(trim_end(u) == u);
}

pub fn is_space_char(c: char) -> (b: bool)
    ensures
        b == is_space(c),
{
    let u = c as u32;
    (0x09 <= u && u <= 0x0d) || u == 0x20 || u == 0x85 || u == 0xa0 || u == 0x1680 || (0x2000 <= u
        && u <= 0x200a) || u == 0x2028 || u == 0x2029 || u == 0x202f || u == 0x205f || u == 0x3000
}

/// The characters of `s`, in order.
pub fn chars_of(s: &str) -> (r: Vec<char>)
    ensures
        r@ == s@,
{
    let mut v: Vec<char> = Vec::new();
    for c in it: s.chars()
        invariant
            v@ == it.seq().take(it.index() as int),
    {
        v.push(c);
    }
    v
}


proof fn lemma_trim_start_at(s: Seq<char>, i: int)
    requires
        0 <= i <= s.len(),
        forall|k: int| 0 <= k < i ==> is_space(#[trigger] s[k]),
        i == s.len() || !is_space(s[i]),
    ensures
        trim_start(s) == s.subrange(i, s.len() as int),
    decreases i,
{
    if i == 0 {
        assert(s.subrange(0, s.len() as int) =~= s);
    } else {
        let t = s.drop_first();
        assert forall|k: int| 0 <= k < i - 1 implies is_space(#[trigger] t[k]) by {
            assert(t[k] == s[k + 1]);
        }
        lemma_trim_start_at(t, i - 1);
        assert(t.subrange(i - 1, t.len() as int) =~= s.subrange(i, s.len() as int));
    }
}

proof fn lemma_trim_end_at(s: Seq<char>, j: int)
    requires
        0 <= j <= s.len(),
        forall|k: int| j <= k < s.len() ==> is_space(#[trigger] s[k]),
        j == 0 || !is_space(s[j - 1]),
    ensures
        trim_end(s) == s.subrange(0, j),
    decreases s.len() - j,
{
    if j == s.len() {
        assert(s.subrange(0, j) =~= s);
    } else {
        let t = s.drop_last();
        assert forall|k: int| j <= k < t.len() implies is_space(#[trigger] t[k]) by {
            assert(t[k] == s[k]);
        }
        lemma_trim_end_at(t, j);
        assert(t.subrange(0, j) =~= s.subrange(0, j));
    }
}

/// The positions `(i, j)` such that `s[i..j]` is `s` without leading and
/// trailing whitespace.
fn trim_bounds(v: &Vec<char>) -> (r: (usize, usize))
    ensures
        r.0 <= r.1 <= v@.len(),
        trim(v@) == v@.subrange(r.0 as int, r.1 as int),
{
    let ghost s = v@;
    let n = v.len();
    let mut i: usize = 0;
    while i < n && is_space_char(v[i])
        invariant
            v@ == s,
            n == v@.len(),
            i <= n,
            forall|k: int| 0 <= k < i ==> is_space(#[trigger] v@[k]),
        decreases n - i,
    {
        i = i + 1;
    }
    let mut j: usize = n;
    while j > i && is_space_char(v[j - 1])
        invariant
            v@ == s,
            n == v@.len(),
            i <= j <= n,
            forall|k: int| j <= k < n ==> is_space(#[trigger] v@[k]),
        decreases j,
    {
        j = j - 1;
    }
    proof {
        lemma_trim_start_at(s, i as int);
        let t = s.subrange(i as int, n as int);
        assert forall|k: int| j - i <= k < t.len() implies is_space(#[trigger] t[k]) by {
            assert(t[k] == s[k + i]);
        }
        if j > i {
            assert(t[j - i - 1] == s[j - 1]);
        }
        lemma_trim_end_at(t, j - i);
        assert(t.subrange(0, j - i) =~= s.subrange(i as int, j as int));
    }
    (i, j)
}

/// `s` without leading and trailing whitespace, as `str::trim` gives it.
pub fn trim_str(s: &str) -> (r: &str)
    ensures
        r@ == trim(s@),
{
    let v = chars_of(s);
    let (i, j) = trim_bounds(&v);
    s.substring_char(i, j)
}

/// `v` without leading and trailing whitespace.
pub fn trim_chars(v: &Vec<char>) -> (r: Vec<char>)
    ensures
        r@ == trim(v@),
{
    let (i, j) = trim_bounds(v);
    let mut r: Vec<char> = Vec::new();
    let mut k: usize = i;
    while k < j
        invariant
            i <= k <= j <= v@.len(),
            r@ == v@.subrange(i as int, k as int),
        decreases j - k,
    {
        r.push(v[k]);
        assert(v@.subrange(i as int, k + 1) =~= v@.subrange(i as int, k as int).push(v@[k as int]));
        k = k + 1;
    }
    r
}

/// Whether `a` and `b` hold the same characters.
pub fn same_chars(a: &Vec<char>, b: &Vec<char>) -> (r: bool)
    ensures
        r == (a@ == b@),
{
    if a.len() != b.len() {
        return false;
    }
    let mut i: usize = 0;
    while i < a.len()
        invariant
            a.len() == b.len(),
            i <= a.len(),
            forall|k: int| 0 <= k < i ==> a@[k] == b@[k],
        decreases a.len() - i,
    {
        if a[i] != b[i] {
            return false;
        }
        i = i + 1;
    }
    assert(a@ =~= b@);
    true
}

/// The pieces of `s` between the occurrences of `sep`, as `str::split` gives
/// them: one more piece than there are separators, empty pieces included.
pub open spec fn split_on(s: Seq<char>, sep: char) -> Seq<Seq<char>>
    decreases s.len(),
{
    if s.len() == 0 {
        seq![seq![]]
    } else {
        let rest = split_on(s.drop_last(), sep);
        if s.last() == sep {
            rest.push(seq![])
        } else {
            rest.update(rest.len() - 1, rest.last().push(s.last()))
        }
    }
}

proof fn lemma_split_nonempty(s: Seq<char>, sep: char)
    ensures
        split_on(s, sep).len() >= 1,
    decreases s.len(),
{
    if s.len() > 0 {
        lemma_split_nonempty(s.drop_last(), sep);
    }
}

/// The views of a list of character vectors.
pub open spec fn char_views(v: Seq<Vec<char>>) -> Seq<Seq<char>> {
    v.map_values(|x: Vec<char>| x@)
}

/// The pieces of `v` between the occurrences of `sep`.
pub fn split_chars(v: &Vec<char>, sep: char) -> (r: Vec<Vec<char>>)
    ensures
        char_views(r@) == split_on(v@, sep),
{
    let mut pieces: Vec<Vec<char>> = Vec::new();
    let mut cur: Vec<char> = Vec::new();
    let mut i: usize = 0;
    assert(v@.take(0) =~= Seq::<char>::empty());
    while i < v.len()
        invariant
            i <= v.len(),
            char_views(pieces@).push(cur@) == split_on(v@.take(i as int), sep),
        decreases v.len() - i,
    {
        proof {
            lemma_split_nonempty(v@.take(i as int), sep);
            assert(v@.take(i + 1).drop_last() =~= v@.take(i as int));
        }
        let c = v[i];
        if c == sep {
            let mut done: Vec<char> = Vec::new();
            std::mem::swap(&mut done, &mut cur);
            pieces.push(done);
            proof {
                assert(char_views(pieces@).push(cur@) =~= split_on(v@.take(i as int), sep).push(seq![]));
            }
        } else {
            cur.push(c);
            proof {
                let prev = split_on(v@.take(i as int), sep);
                assert(char_views(pieces@).push(cur@) =~= prev.update(prev.len() - 1, prev.last().push(c)));
            }
        }
        i = i + 1;
    }
    pieces.push(cur);
    assert(v@.take(v@.len() as int) =~= v@);
    assert(char_views(pieces@) =~= split_on(v@, sep));
    pieces
}


/// Whether `s` begins with `p`.
pub open spec fn has_prefix(s: Seq<char>, p: Seq<char>) -> bool {
    p.len() <= s.len() && s.subrange(0, p.len() as int) == p
}

/// Whether `v` begins with the characters of `p`.
pub fn starts_with_chars(v: &Vec<char>, p: &str) -> (b: bool)
    ensures
        b == has_prefix(v@, p@),
{
    let pv = chars_of(p);
    if pv.len() > v.len() {
        return false;
    }
    let mut i: usize = 0;
    while i < pv.len()
        invariant
            pv@ == p@,
            pv.len() <= v.len(),
            i <= pv.len(),
            forall|k: int| 0 <= k < i ==> v@[k] == pv@[k],
        decreases pv.len() - i,
    {
        if v[i] != pv[i] {
            assert(v@.subrange(0, pv@.len() as int)[i as int] != p@[i as int]);
            return false;
        }
        i = i + 1;
    }
    assert(v@.subrange(0, pv@.len() as int) =~= p@);
    true
}

/// The character that writes the decimal digit `d`.
pub open spec fn digit_char(d: nat) -> char {
    if d == 0 {
        '0'
    } else if d == 1 {
        '1'
    } else if d == 2 {
        '2'
    } else if d == 3 {
        '3'
    } else if d == 4 {
        '4'
    } else if d == 5 {
        '5'
    } else if d == 6 {
        '6'
    } else if d == 7 {
        '7'
    } else if d == 8 {
        '8'
    } else {
        '9'
    }
}

/// The decimal writing of `n`, without sign or leading zeros (what `Display` gives for an unsigned integer).
pub open spec fn decimal(n: nat) -> Seq<char>
    decreases n,
{
    if n < 10 {
        seq![digit_char(n)]
    } else {
        decimal(n / 10).push(digit_char(n % 10))
    }
}

fn digit_str(d: u64) -> (r: &'static str)
    requires
        d < 10,
    ensures
        r@ == seq![digit_char(d as nat)],
{
    match d {
        0 => {
            proof {
                reveal_strlit("0");
            }
            "0"
        },
        1 => {
            proof {
                reveal_strlit("1");
            }
            "1"
        },
        2 => {
            proof {
                reveal_strlit("2");
            }
            "2"
        },
        3 => {
            proof {
                reveal_strlit("3");
            }
            "3"
        },
        4 => {
            proof {
                reveal_strlit("4");
            }
            "4"
        },
        5 => {
            proof {
                reveal_strlit("5");
            }
            "5"
        },
        6 => {
            proof {
                reveal_strlit("6");
            }
            "6"
        },
        7 => {
            proof {
                reveal_strlit("7");
            }
            "7"
        },
        8 => {
            proof {
                reveal_strlit("8");
            }
            "8"
        },
        _ => {
            proof {
                reveal_strlit("9");
            }
            "9"
        },
    }
}

/// The decimal writing of `n`.
pub fn decimal_string(n: u64) -> (r: String)
    ensures
        r@ == decimal(n as nat),
    decreases n,
{
    if n < 10 {
        String::from_str(digit_str(n))
    } else {
        let mut s = decimal_string(n / 10);
        s.append(digit_str(n % 10));
        s
    }
}

/// `n` spaces.
pub open spec fn spaces(n: nat) -> Seq<char> {
    Seq::new(n, |i: int| ' ')
}

/// `s` followed by as many spaces as make it `width` characters long (the `{:<width}` format).
pub open spec fn pad_end(s: Seq<char>, width: nat) -> Seq<char> {
    if s.len() < width {
        s + spaces((width - s.len()) as nat)
    } else {
        s
    }
}

/// `s`, left-aligned and padded with spaces to `width` characters.
pub fn pad_end_string(s: &str, width: usize) -> (r: String)
    ensures
        r@ == pad_end(s@, width as nat),
{
    let n = chars_of(s).len();
    let mut r = String::from_str(s);
    let mut k: usize = n;
    while k < width
        invariant
            n == s@.len(),
            n <= k <= width || (k == n && n >= width),
            r@ == s@ + spaces((k - n) as nat),
        decreases width - k,
    {
        proof {
            reveal_strlit(" ");
        }
        r.append(" ");
        assert(s@ + spaces((k + 1 - n) as nat) =~= s@ + spaces((k - n) as nat) + " "@);
        k = k + 1;
    }
    assert(s@ + spaces(0) =~= s@);
    r
}

/// The pieces of `list` written one after the other with `sep` between each two.
pub open spec fn join(list: Seq<Seq<char>>, sep: Seq<char>) -> Seq<char>
    decreases list.len(),
{
    if list.len() == 0 {
        seq![]
    } else if list.len() == 1 {
        list[0]
    } else {
        join(list.drop_last(), sep) + sep + list.last()
    }
}

/// The views of the strings in `v`.
pub open spec fn string_views(v: Seq<String>) -> Seq<Seq<char>> {
    v.map_values(|s: String| s@)
}

/// The strings of `list` joined with `sep`, as `[String]::join` gives them.
pub fn join_strings(list: &Vec<String>, sep: &str) -> (r: String)
    ensures
        r@ == join(string_views(list@), sep@),
{
    let mut r = String::new();
    let ghost views = string_views(list@);
    let mut i: usize = 0;
    while i < list.len()
        invariant
            views == string_views(list@),
            i <= list.len(),
            r@ == join(views.take(i as int), sep@),
        decreases list.len() - i,
    {
        if i != 0 {
            r.append(sep);
        }
        r.append(list[i].as_str());
        assert(views.take(i + 1).drop_last() =~= views.take(i as int));
        i = i + 1;
    }
    assert(views.take(list.len() as int) =~= views);
    r
}


/// Whether `a` and `b` hold the same characters.
pub fn same_text(a: &str, b: &str) -> (r: bool)
    ensures
        r == (a@ == b@),
{
    let va = chars_of(a);
    let vb = chars_of(b);
    if va.len() != vb.len() {
        return false;
    }
    let mut i: usize = 0;
    while i < va.len()
        invariant
            va@ == a@,
            vb@ == b@,
            va.len() == vb.len(),
            i <= va.len(),
            forall|k: int| 0 <= k < i ==> va@[k] == vb@[k],
        decreases va.len() - i,
    {
        if va[i] != vb[i] {
            return false;
        }
        i = i + 1;
    }
    assert(va@ =~= vb@);
    true
}

/// The number of bytes UTF-8 takes to encode `c` (what `char::len_utf8` returns).
pub open spec fn utf8_width(c: char) -> nat {
    let u = c as u32;
    if u < 0x80 {
        1
    } else if u < 0x800 {
        2
    } else if u < 0x10000 {
        3
    } else {
        4
    }
}

/// The number of bytes UTF-8 takes to encode `s`.
pub open spec fn utf8_len(s: Seq<char>) -> nat
    decreases s.len(),
{
    if s.len() == 0 {
        0
    } else {
        utf8_len(s.drop_last()) + utf8_width(s.last())
    }
}

/// Whether the first `n` bytes of the UTF-8 encoding of `s` end where a
/// character ends, and so make up a string of their own.
pub open spec fn has_byte_prefix(s: Seq<char>, n: nat) -> bool {
    exists|k: int| 0 <= k <= s.len() && utf8_len(s.take(k)) == n
}

/// The characters that the first `n` bytes of `s` encode, when those bytes make
/// up a string of their own; otherwise all of `s` (what `s.get(..n).unwrap_or(s)` gives).
pub open spec fn byte_prefix_or_all(s: Seq<char>, n: nat) -> Seq<char> {
    if has_byte_prefix(s, n) {
        s.take(choose|k: int| 0 <= k <= s.len() && utf8_len(s.take(k)) == n)
    } else {
        s
    }
}

/// The text `byte_prefix_or_all` keeps begins `s`, and when it is not all of
/// `s` it takes exactly `n` bytes.
pub proof fn lemma_byte_prefix_is_prefix(s: Seq<char>, n: nat)
    ensures
        byte_prefix_or_all(s, n).len() <= s.len(),
        byte_prefix_or_all(s, n) == s.take(byte_prefix_or_all(s, n).len() as int),
        has_byte_prefix(s, n) ==> utf8_len(byte_prefix_or_all(s, n)) == n,
{
    if has_byte_prefix(s, n) {
        let k = choose|k: int| 0 <= k <= s.len() && utf8_len(s.take(k)) == n;
        assert(s.take(k).len() == k);
        assert(s.take(k) =~= s.take(s.take(k).len() as int));
    } else {
        assert(s.take(s.len() as int) =~= s);
    }
}

fn utf8_width_of(c: char) -> (r: usize)
    ensures
        r == utf8_width(c),
{
    let u = c as u32;
    if u < 0x80 {
        1
    } else if u < 0x800 {
        2
    } else if u < 0x10000 {
        3
    } else {
        4
    }
}

proof fn lemma_utf8_len_step(s: Seq<char>, k: int)
    requires
        0 <= k < s.len(),
    ensures
        utf8_len(s.take(k + 1)) == utf8_len(s.take(k)) + utf8_width(s[k]),
{
    assert(s.take(k + 1).drop_last() =~= s.take(k));
}

proof fn lemma_utf8_len_increasing(s: Seq<char>, i: int, j: int)
    requires
        0 <= i < j <= s.len(),
    ensures
        utf8_len(s.take(i)) < utf8_len(s.take(j)),
    decreases j - i,
{
    lemma_utf8_len_step(s, j - 1);
    if i < j - 1 {
        lemma_utf8_len_increasing(s, i, j - 1);
    }
}

/// The first `n` bytes of `s` when they end where a character ends, else all of `s`.
pub fn byte_prefix_or_whole(s: &str, n: usize) -> (r: &str)
    requires
        n <= usize::MAX - 4,
    ensures
        r@ == byte_prefix_or_all(s@, n as nat),
{
    let v = chars_of(s);
    let mut k: usize = 0;
    let mut bytes: usize = 0;
    while k < v.len() && bytes < n
        invariant
            v@ == s@,
            k <= v.len(),
            bytes == utf8_len(s@.take(k as int)),
            bytes <= n + 3,
            n <= usize::MAX - 4,
            k > 0 ==> utf8_len(s@.take(k - 1)) < n,
        decreases v.len() - k,
    {
        proof {
            lemma_utf8_len_step(s@, k as int);
        }
        bytes = bytes + utf8_width_of(v[k]);
        k = k + 1;
    }
    if bytes == n {
        proof {
            assert(has_byte_prefix(s@, n as nat));
            let c = choose|c: int| 0 <= c <= s@.len() && utf8_len(s@.take(c)) == n;
            if c < k {
                lemma_utf8_len_increasing(s@, c, k as int);
            } else if c > k {
                lemma_utf8_len_increasing(s@, k as int, c);
            }
        }
        s.substring_char(0, k)
    } else {
        proof {
            assert forall|c: int| 0 <= c <= s@.len() implies utf8_len(#[trigger] s@.take(c)) != n by {
                if c < k {
                    if c < k - 1 {
                        lemma_utf8_len_increasing(s@, c, k - 1);
                    }
                } else if c > k {
                    lemma_utf8_len_increasing(s@, k as int, c);
                }
            }
        }
        s
    }
}

} // verus!
