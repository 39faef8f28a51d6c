//! Verified text utilities: whitespace handling, word counting, splitting on
//! commas, trimming, prefix and substring tests, joining, pattern removal and
//! decimal rendering.

use vstd::prelude::*;
use vstd::string::*;

verus! {

/// The whitespace characters recognized by trimming and word counting: the
/// characters of Unicode's White_Space property, the set the standard
/// library's trimming and whitespace splitting go by.
pub open spec fn is_space(c: char) -> bool {
    ||| c == '\t' || c == '\n' || c == '\u{0B}' || c == '\u{0C}' || c == '\r' || c == ' '
    ||| c == '\u{85}' || c == '\u{A0}' || c == '\u{1680}'
    ||| c == '\u{2000}' || c == '\u{2001}' || c == '\u{2002}' || c == '\u{2003}' || c
        == '\u{2004}' || c == '\u{2005}' || c == '\u{2006}' || c == '\u{2007}' || c == '\u{2008}'
        || c == '\u{2009}' || c == '\u{200A}'
    ||| c == '\u{2028}' || c == '\u{2029}' || c == '\u{202F}' || c == '\u{205F}' || c == '\u{3000}'
}

/// Executable mirror of `is_space`.
pub fn char_is_space(c: char) -> (r: bool)
    ensures
        r == is_space(c),
{
    c == '\t' || c == '\n' || c == '\u{0B}' || c == '\u{0C}' || c == '\r' || c == ' ' || c
        == '\u{85}' || c == '\u{A0}' || c == '\u{1680}' || c == '\u{2000}' || c == '\u{2001}' || c
        == '\u{2002}' || c == '\u{2003}' || c == '\u{2004}' || c == '\u{2005}' || c == '\u{2006}'
        || c == '\u{2007}' || c == '\u{2008}' || c == '\u{2009}' || c == '\u{200A}' || c
        == '\u{2028}' || c == '\u{2029}' || c == '\u{202F}' || c == '\u{205F}' || c == '\u{3000}'
}

/// Number of maximal non-whitespace runs in `s`, given whether the character
/// just before `s` belongs to a word.
pub open spec fn count_words_from(s: Seq<char>, in_word: bool) -> nat
    decreases s.len(),
{
    if s.len() == 0 {
        0
    } else if is_space(s[0]) {
        count_words_from(s.drop_first(), false)
    } else if in_word {
        count_words_from(s.drop_first(), true)
    } else {
        1 + count_words_from(s.drop_first(), true)
    }
}

/// Counts whitespace-delimited words, as the synopsis-sufficiency rule does.
pub fn count_words(s: &str) -> (n: usize)
    ensures
        n == count_words_from(s@, false),
{
    let len = s.unicode_len();
    let mut i: usize = 0;
    let mut n: usize = 0;
    let mut in_word: bool = false;
    assert(s@.skip(0) =~= s@);
    while i < len
        invariant
            i <= len,
            len == s@.len(),
            n <= i,
            count_words_from(s@, false) == n + count_words_from(s@.skip(i as int), in_word),
        decreases len - i,
    {
        let c = s.get_char(i);
        assert(s@.skip(i as int)[0] == s@[i as int]);
        assert(s@.skip(i as int).drop_first() =~= s@.skip(i as int + 1));
        if char_is_space(c) {
            in_word = false;
        } else {
            if !in_word {
                n = n + 1;
            }
            in_word = true;
        }
        i = i + 1;
    }
    assert(s@.skip(len as int) =~= Seq::<char>::empty());
    n
}

/// `p` is a prefix of `s`.
pub open spec fn spec_starts_with(s: Seq<char>, p: Seq<char>) -> bool {
    p.len() <= s.len() && s.take(p.len() as int) == p
}

/// Prefix test over the characters of two string slices.
pub fn str_starts_with(s: &str, p: &str) -> (r: bool)
    ensures
        r == spec_starts_with(s@, p@),
{
    let slen = s.unicode_len();
    let plen = p.unicode_len();
    if plen > slen {
        return false;
    }
    let mut i: usize = 0;
    while i < plen
        invariant
            i <= plen <= slen,
            slen == s@.len(),
            plen == p@.len(),
            forall|k: int| 0 <= k < i ==> s@[k] == p@[k],
        decreases plen - i,
    {
        if s.get_char(i) != p.get_char(i) {
            assert(s@.take(plen as int)[i as int] != p@[i as int]);
            return false;
        }
        i = i + 1;
    }
    assert(s@.take(plen as int) =~= p@);
    true
}

/// `p` is a suffix of `s`.
pub open spec fn spec_ends_with(s: Seq<char>, p: Seq<char>) -> bool {
    p.len() <= s.len() && s.skip(s.len() - p.len()) == p
}

/// Suffix test over the characters of two string slices.
pub fn str_ends_with(s: &str, p: &str) -> (r: bool)
    ensures
        r == spec_ends_with(s@, p@),
{
    let slen = s.unicode_len();
    let plen = p.unicode_len();
    if plen > slen {
        return false;
    }
    let base: usize = slen - plen;
    let mut i: usize = 0;
    while i < plen
        invariant
            i <= plen <= slen,
            base == slen - plen,
            slen == s@.len(),
            plen == p@.len(),
            forall|k: int| 0 <= k < i ==> s@[base + k] == p@[k],
        decreases plen - i,
    {
        if s.get_char(base + i) != p.get_char(i) {
            assert(s@.skip(base as int)[i as int] != p@[i as int]);
            return false;
        }
        i = i + 1;
    }
    assert(s@.skip(base as int) =~= p@);
    true
}

/// Character-for-character equality of two string slices.
pub fn str_eq(s: &str, p: &str) -> (r: bool)
    ensures
        r == (s@ == p@),
{
    let slen = s.unicode_len();
    let plen = p.unicode_len();
    if slen != plen {
        return false;
    }
    let r = str_starts_with(s, p);
    assert(s@.take(plen as int) =~= s@);
    r
}

/// `p` occurs as a contiguous run inside `s`.
pub open spec fn spec_contains(s: Seq<char>, p: Seq<char>) -> bool {
    exists|i: int|
        0 <= i && i + p.len() <= s.len() && #[trigger] s.subrange(i, i + p.len()) == p
}

/// Whether `p` occurs at position `i` of `s`.
fn matches_at(s: &str, p: &str, i: usize) -> (r: bool)
    requires
        i + p@.len() <= s@.len(),
    ensures
        r == (s@.subrange(i as int, i as int + p@.len() as int) == p@),
{
    let slen = s.unicode_len();
    let plen = p.unicode_len();
    let mut j: usize = 0;
    while j < plen
        invariant
            j <= plen,
            plen == p@.len(),
            slen == s@.len(),
            i + plen <= slen,
            forall|k: int| 0 <= k < j ==> s@[i + k] == p@[k],
        decreases plen - j,
    {
        if s.get_char(i + j) != p.get_char(j) {
            assert(s@.subrange(i as int, i as int + plen as int)[j as int] != p@[j as int]);
            return false;
        }
        j = j + 1;
    }
    assert(s@.subrange(i as int, i as int + plen as int) =~= p@);
    true
}

/// Substring search over the characters of two string slices.
pub fn str_contains(s: &str, p: &str) -> (r: bool)
    ensures
        r == spec_contains(s@, p@),
{
    let slen = s.unicode_len();
    let plen = p.unicode_len();
    if plen > slen {
        assert(!spec_contains(s@, p@));
        return false;
    }
    if plen == 0 {
        assert(spec_contains(s@, p@)) by {
            assert(s@.subrange(0, 0 + p@.len() as int) =~= p@);
        }
        return true;
    }
    let mut i: usize = 0;
    while i <= slen - plen
        invariant
            0 < plen <= slen,
            slen == s@.len(),
            plen == p@.len(),
            i <= slen - plen + 1,
            forall|k: int|
                0 <= k < i ==> #[trigger] s@.subrange(k, k + p@.len() as int) != p@,
        decreases slen - i,
    {
        if matches_at(s, p, i) {
            return true;
        }
        i = i + 1;
    }
    false
}

/// `s` with leading and trailing whitespace removed.
pub open spec fn trim_spec(s: Seq<char>) -> Seq<char>
    decreases s.len(),
{
    if s.len() == 0 {
        s
    } else if is_space(s[0]) {
        trim_spec(s.drop_first())
    } else if is_space(s[s.len() - 1]) {
        trim_spec(s.drop_last())
    } else {
        s
    }
}

proof fn lemma_trim_all_space(s: Seq<char>)
    requires
        forall|k: int| 0 <= k < s.len() ==> is_space(s[k]),
    ensures
        trim_spec(s) =~= Seq::<char>::empty(),
    decreases s.len(),
{
    if s.len() > 0 {
        lemma_trim_all_space(s.drop_first());
    }
}

proof fn lemma_trim_bounds(s: Seq<char>, a: int, b: int)
    requires
        0 <= a <= b < s.len(),
        !is_space(s[a]),
        !is_space(s[b]),
        forall|k: int| 0 <= k < a ==> is_space(s[k]),
        forall|k: int| b < k < s.len() ==> is_space(s[k]),
    ensures
        trim_spec(s) == s.subrange(a, b + 1),
    decreases s.len(),
{
    if a > 0 {
        assert(is_space(s[0]));
        lemma_trim_bounds(s.drop_first(), a - 1, b - 1);
        assert(s.drop_first().subrange(a - 1, b) =~= s.subrange(a, b + 1));
    } else if b < s.len() - 1 {
        assert(is_space(s[s.len() - 1]));
        lemma_trim_bounds(s.drop_last(), a, b);
        assert(s.drop_last().subrange(a, b + 1) =~= s.subrange(a, b + 1));
    } else {
        assert(s.subrange(0, s.len() as int) =~= s);
    }
}

/// Removes leading and trailing whitespace.
pub fn trim(s: &str) -> (r: &str)
    ensures
        r@ == trim_spec(s@),
{
    let len = s.unicode_len();
    let mut a: usize = 0;
    while a < len && char_is_space(s.get_char(a))
        invariant
            a <= len,
            len == s@.len(),
            forall|k: int| 0 <= k < a ==> is_space(s@[k]),
        decreases len - a,
    {
        a = a + 1;
    }
    if a == len {
        proof {
            lemma_trim_all_space(s@);
        }
        let r = s.substring_char(0, 0);
        assert(r@ =~= Seq::<char>::empty());
        return r;
    }
    let mut b: usize = len - 1;
    while b > a && char_is_space(s.get_char(b))
        invariant
            a <= b < len,
            len == s@.len(),
            forall|k: int| b < k < len ==> is_space(s@[k]),
        decreases b,
    {
        b = b - 1;
    }
    proof {
        lemma_trim_bounds(s@, a as int, b as int);
    }
    s.substring_char(a, b + 1)
}

/// The tokens of `s` between commas, in order; an empty string is one empty
/// token, matching how splitting on a separator behaves.
pub open spec fn split_commas_spec(s: Seq<char>) -> Seq<Seq<char>>
    decreases s.len(),
{
    if s.len() == 0 {
        seq![Seq::<char>::empty()]
    } else if s[0] == ',' {
        seq![Seq::<char>::empty()] + split_commas_spec(s.drop_first())
    } else {
        let rest = split_commas_spec(s.drop_first());
        seq![seq![s[0]] + rest[0]] + rest.drop_first()
    }
}

proof fn lemma_split_no_comma(s: Seq<char>)
    requires
        forall|k: int| 0 <= k < s.len() ==> s[k] != ',',
    ensures
        split_commas_spec(s) =~= seq![s],
    decreases s.len(),
{
    if s.len() == 0 {
        assert(s =~= Seq::<char>::empty());
        assert(split_commas_spec(s) =~= seq![s]);
    } else {
        lemma_split_no_comma(s.drop_first());
        assert(seq![s[0]] + s.drop_first() =~= s);
    }
}

proof fn lemma_split_at_comma(s: Seq<char>, i: int)
    requires
        0 <= i < s.len(),
        s[i] == ',',
        forall|k: int| 0 <= k < i ==> s[k] != ',',
    ensures
        split_commas_spec(s) == seq![s.take(i)] + split_commas_spec(s.skip(i + 1)),
    decreases i,
{
    if i == 0 {
        assert(s.take(0) =~= Seq::<char>::empty());
        assert(s.drop_first() =~= s.skip(1));
        assert(split_commas_spec(s) =~= seq![s.take(0)] + split_commas_spec(s.skip(1)));
    } else {
        let d = s.drop_first();
        assert(d[i - 1] == ',');
        lemma_split_at_comma(d, i - 1);
        assert(seq![s[0]] + d.take(i - 1) =~= s.take(i));
        assert(d.skip(i) =~= s.skip(i + 1));
        let rest = split_commas_spec(d);
        assert(rest[0] == d.take(i - 1));
        assert(rest.drop_first() =~= split_commas_spec(s.skip(i + 1)));
        assert(split_commas_spec(s) =~= seq![s.take(i)] + split_commas_spec(s.skip(i + 1)));
    }
}

/// Position of the first comma of `s`, if any.
fn find_comma(s: &str) -> (r: Option<usize>)
    ensures
        match r {
            Some(i) => i < s@.len() && s@[i as int] == ',' && forall|k: int|
                0 <= k < i ==> s@[k] != ',',
            None => forall|k: int| 0 <= k < s@.len() ==> s@[k] != ',',
        },
{
    let len = s.unicode_len();
    let mut i: usize = 0;
    while i < len
        invariant
            i <= len,
            len == s@.len(),
            forall|k: int| 0 <= k < i ==> s@[k] != ',',
        decreases len - i,
    {
        if s.get_char(i) == ',' {
            return Some(i);
        }
        i = i + 1;
    }
    None
}

/// Splits `s` on commas, keeping empty tokens.
pub fn split_commas(s: &str) -> (r: Vec<String>)
    ensures
        r@.len() == split_commas_spec(s@).len(),
        forall|k: int| 0 <= k < r@.len() ==> r@[k]@ == split_commas_spec(s@)[k],
    decreases s@.len(),
{
    let len = s.unicode_len();
    match find_comma(s) {
        None => {
            proof {
                lemma_split_no_comma(s@);
            }
            let mut v: Vec<String> = Vec::new();
            v.push(String::from_str(s));
            v
        },
        Some(i) => {
            let token = s.substring_char(0, i);
            let rest = s.substring_char(i + 1, len);
            proof {
                lemma_split_at_comma(s@, i as int);
                assert(rest@ =~= s@.skip(i as int + 1));
                assert(token@ =~= s@.take(i as int));
            }
            let mut v = split_commas(rest);
            v.insert(0, String::from_str(token));
            proof {
                let full = split_commas_spec(s@);
                assert(full[0] == s@.take(i as int));
                assert(forall|k: int|
                    1 <= k < full.len() ==> full[k] == split_commas_spec(s@.skip(i as int + 1))[k
                        - 1]);
            }
            v
        },
    }
}

/// `s` with every non-overlapping occurrence of `p`, scanned left to right,
/// removed.
pub open spec fn remove_all_spec(s: Seq<char>, p: Seq<char>) -> Seq<char>
    decreases s.len(),
{
    if p.len() == 0 || s.len() < p.len() {
        s
    } else if s.take(p.len() as int) == p {
        remove_all_spec(s.skip(p.len() as int), p)
    } else {
        seq![s[0]] + remove_all_spec(s.drop_first(), p)
    }
}

/// Removes every occurrence of `p` from `s`, scanning left to right.
pub fn remove_all(s: &str, p: &str) -> (r: String)
    requires
        p@.len() > 0,
    ensures
        r@ == remove_all_spec(s@, p@),
{
    let len = s.unicode_len();
    let plen = p.unicode_len();
    let mut out = String::new();
    let mut i: usize = 0;
    assert(s@.skip(0) =~= s@);
    assert(out@ + remove_all_spec(s@.skip(0), p@) =~= remove_all_spec(s@, p@));
    while i < len
        invariant
            i <= len,
            len == s@.len(),
            plen == p@.len(),
            plen > 0,
            out@ + remove_all_spec(s@.skip(i as int), p@) == remove_all_spec(s@, p@),
        decreases len - i,
    {
        let ghost tail = s@.skip(i as int);
        if plen <= len - i && matches_at(s, p, i) {
            proof {
                assert(tail.take(plen as int) =~= s@.subrange(i as int, i as int + plen as int));
                assert(tail.skip(plen as int) =~= s@.skip(i as int + plen as int));
            }
            i = i + plen;
        } else {
            proof {
                if i + plen <= len {
                    assert(tail.take(plen as int) =~= s@.subrange(
                        i as int,
                        i as int + plen as int,
                    ));
                }
                assert(tail[0] == s@[i as int]);
                assert(tail.drop_first() =~= s@.skip(i as int + 1));
            }
            let c = s.substring_char(i, i + 1);
            assert(c@ =~= seq![s@[i as int]]);
            out.append(c);
            i = i + 1;
        }
    }
    assert(s@.skip(len as int) =~= Seq::<char>::empty());
    out
}

/// The items joined with `sep` between consecutive items.
pub open spec fn spec_join(items: Seq<Seq<char>>, sep: Seq<char>) -> Seq<char>
    decreases items.len(),
{
    if items.len() == 0 {
        Seq::<char>::empty()
    } else if items.len() == 1 {
        items[0]
    } else {
        spec_join(items.drop_last(), sep) + sep + items.last()
    }
}

/// The character sequences of a sequence of strings.
pub open spec fn views_of(items: Seq<String>) -> Seq<Seq<char>> {
    items.map_values(|s: String| s@)
}

pub proof fn lemma_views_push(s: Seq<String>, x: String)
    ensures
        views_of(s.push(x)) =~= views_of(s) + seq![x@],
{
}

/// Joins the strings of `items` with `sep` between consecutive items.
pub fn join_with(items: &Vec<String>, sep: &str) -> (r: String)
    ensures
        r@ == spec_join(views_of(items@), sep@),
{
    let mut out = String::new();
    let ghost vs = views_of(items@);
    assert(out@ =~= spec_join(vs.take(0), sep@));
    let mut i: usize = 0;
    while i < items.len()
        invariant
            i <= items.len(),
            vs == views_of(items@),
            vs.len() == items@.len(),
            forall|k: int| 0 <= k < items@.len() ==> vs[k] == items@[k]@,
            out@ == spec_join(vs.take(i as int), sep@),
        decreases items.len() - i,
    {
        if i > 0 {
            out.append(sep);
        }
        out.append(items[i].as_str());
        proof {
            assert(vs.take(i as int + 1).drop_last() =~= vs.take(i as int));
            assert(vs.take(i as int + 1).last() == vs[i as int]);
        }
        i = i + 1;
    }
    assert(vs.take(items@.len() as int) =~= vs);
    out
}

/// The decimal digit character for `d` < 10.
pub open spec fn digit_char(d: nat) -> char {
    if d == 0 {
        '0'
    } else if d == 1 {
        '1'
    } else if d == 2 {
        '2'
    } else if d == 3 {
        '3'
    } else if d == 4 {
        '4'
    } else if d == 5 {
        '5'
    } else if d == 6 {
        '6'
    } else if d == 7 {
        '7'
    } else if d == 8 {
        '8'
    } else {
        '9'
    }
}

/// The decimal digits of `n`, most significant first.
pub open spec fn spec_dec(n: nat) -> Seq<char>
    decreases n,
{
    if n < 10 {
        seq![digit_char(n)]
    } else {
        spec_dec(n / 10) + seq![digit_char(n % 10)]
    }
}

fn digit_str(d: u64) -> (r: &'static str)
    requires
        d < 10,
    ensures
        r@ == seq![digit_char(d as nat)],
{
    if d == 0 {
        proof {
            reveal_strlit("0");
        }
        let r = "0";
        assert(r@ =~= seq![digit_char(d as nat)]);
        r
    } else if d == 1 {
        proof {
            reveal_strlit("1");
        }
        let r = "1";
        assert(r@ =~= seq![digit_char(d as nat)]);
        r
    } else if d == 2 {
        proof {
            reveal_strlit("2");
        }
        let r = "2";
        assert(r@ =~= seq![digit_char(d as nat)]);
        r
    } else if d == 3 {
        proof {
            reveal_strlit("3");
        }
        let r = "3";
        assert(r@ =~= seq![digit_char(d as nat)]);
        r
    } else if d == 4 {
        proof {
            reveal_strlit("4");
        }
        let r = "4";
        assert(r@ =~= seq![digit_char(d as nat)]);
        r
    } else if d == 5 {
        proof {
            reveal_strlit("5");
        }
        let r = "5";
        assert(r@ =~= seq![digit_char(d as nat)]);
        r
    } else if d == 6 {
        proof {
            reveal_strlit("6");
        }
        let r = "6";
        assert(r@ =~= seq![digit_char(d as nat)]);
        r
    } else if d == 7 {
        proof {
            reveal_strlit("7");
        }
        let r = "7";
        assert(r@ =~= seq![digit_char(d as nat)]);
        r
    } else if d == 8 {
        proof {
            reveal_strlit("8");
        }
        let r = "8";
        assert(r@ =~= seq![digit_char(d as nat)]);
        r
    } else {
        proof {
            reveal_strlit("9");
        }
        let r = "9";
        assert(r@ =~= seq![digit_char(d as nat)]);
        r
    }
}

/// Renders `n` in decimal.
pub fn u64_to_string(n: u64) -> (r: String)
    ensures
        r@ == spec_dec(n as nat),
    decreases n,
{
    if n < 10 {
        String::from_str(digit_str(n))
    } else {
        let q = n / 10;
        let d = n % 10;
        assert(q < n) by (nonlinear_arith)
            requires
                n >= 10,
                q == n / 10,
        ;
        let front = u64_to_string(q);
        front.concat(digit_str(d))
    }
}

/// Renders `n` in decimal.
pub fn u32_to_string(n: u32) -> (r: String)
    ensures
        r@ == spec_dec(n as nat),
{
    u64_to_string(n as u64)
}

/// One labelled display line, present only when the value is.
pub open spec fn spec_line(label: Seq<char>, v: Option<Seq<char>>) -> Seq<char> {
    match v {
        Some(x) => label + x + "\n"@,
        None => Seq::<char>::empty(),
    }
}

/// Appends one labelled display line when the value is present.
pub fn push_line(out: &mut String, label: &str, v: &Option<String>)
    ensures
        final (out)@ == old(out)@ + spec_line(label@, opt_view(*v)),
{
    match v {
        Some(x) => {
            out.append(label);
            out.append(x.as_str());
            out.append("\n");
        },
        None => {},
    }
}

/// The character sequence of an optional string.
pub open spec fn opt_view(o: Option<String>) -> Option<Seq<char>> {
    match o {
        Some(s) => Some(s@),
        None => None,
    }
}

/// Clones an optional string, preserving its characters.
pub fn clone_opt_string(o: &Option<String>) -> (r: Option<String>)
    ensures
        r == *o,
{
    match o {
        Some(s) => Some(s.clone()),
        None => None,
    }
}

/// Clones a vector of strings, preserving its contents.
pub fn clone_string_vec(v: &Vec<String>) -> (r: Vec<String>)
    ensures
        r@ == v@,
{
    let mut out: Vec<String> = Vec::new();
    let mut i: usize = 0;
    while i < v.len()
        invariant
            i <= v.len(),
            out@ =~= v@.take(i as int),
        decreases v.len() - i,
    {
        out.push(v[i].clone());
        assert(out@ =~= v@.take(i as int + 1));
        i = i + 1;
    }
    assert(v@.take(v@.len() as int) =~= v@);
    out
}

} // verus!
