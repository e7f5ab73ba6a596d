//! Verified string primitives. Every path, URL and argument this crate
//! produces is assembled through these functions, so their contracts speak
//! directly over the `Seq<char>` views of `&str` and `String`.
use vstd::prelude::*;

verus! {

/// True when the characters of `b` appear in `a` starting at position `at`.
pub open spec fn matches_at(a: Seq<char>, b: Seq<char>, at: int) -> bool {
    0 <= at && at + b.len() <= a.len() && a.subrange(at, at + b.len() as int) == b
}

/// Whether `a` and `b` hold the same characters.
pub fn str_eq(a: &str, b: &str) -> (r: bool)
    ensures
        r <==> a@ == b@,
{
    let alen = a.unicode_len();
    let blen = b.unicode_len();
    if alen != blen {
        assert(a@ != b@) by {
            assert(a@.len() != b@.len());
        }
        return false;
    }
    let mut i: usize = 0;
    while i < alen
        invariant
            i <= alen,
            alen == a@.len(),
            alen == b@.len(),
            forall|j: int| 0 <= j < i ==> a@[j] == b@[j],
        decreases alen - i,
    {
        if a.get_char(i) != b.get_char(i) {
            return false;
        }
        i = i + 1;
    }
    proof {
        assert(a@ =~= b@);
    }
    true
}

/// True when some position of `s` starts an occurrence of `p`.
pub open spec fn contains_seq(s: Seq<char>, p: Seq<char>) -> bool {
    exists|i: int| matches_at(s, p, i)
}

/// Whether `pat` occurs in `s` starting at `at`.
pub fn match_at(s: &str, pat: &str, at: usize) -> (r: bool)
    ensures
        r <==> matches_at(s@, pat@, at as int),
{
    let slen = s.unicode_len();
    let plen = pat.unicode_len();
    if at > slen || slen - at < plen {
        return false;
    }
    let mut j: usize = 0;
    while j < plen
        invariant
            j <= plen,
            at + plen <= slen,
            slen == s@.len(),
            plen == pat@.len(),
            forall|k: int| 0 <= k < j ==> s@[at + k] == pat@[k],
        decreases plen - j,
    {
        if s.get_char(at + j) != pat.get_char(j) {
            assert(!matches_at(s@, pat@, at as int)) by {
                if matches_at(s@, pat@, at as int) {
                    assert(s@.subrange(at as int, at + pat@.len() as int)[j as int] == pat@[j as int]);
                }
            }
            return false;
        }
        j = j + 1;
    }
    proof {
        assert(s@.subrange(at as int, at + pat@.len() as int) =~= pat@);
    }
    true
}

/// Whether `pat` occurs anywhere in `s`.
pub fn contains_sub(s: &str, pat: &str) -> (r: bool)
    ensures
        r <==> contains_seq(s@, pat@),
{
    let slen = s.unicode_len();
    let plen = pat.unicode_len();
    if plen > slen {
        assert(!contains_seq(s@, pat@));
        return false;
    }
    if plen == 0 {
        assert(matches_at(s@, pat@, 0)) by {
            assert(s@.subrange(0, 0) =~= pat@);
        }
        return true;
    }
    let mut i: usize = 0;
    while i <= slen - plen
        invariant
            0 < plen <= slen,
            slen == s@.len(),
            plen == pat@.len(),
            i <= slen - plen + 1,
            forall|k: int| 0 <= k < i ==> !matches_at(s@, pat@, k),
        decreases slen - i,
    {
        if match_at(s, pat, i) {
            return true;
        }
        i = i + 1;
    }
    assert forall|k: int| !matches_at(s@, pat@, k) by {
        if matches_at(s@, pat@, k) {
            assert(0 <= k < i);
        }
    }
    false
}

/// The characters of `s` with every occurrence of `p` (chosen left to right,
/// without overlap) replaced by `r`.
pub open spec fn replace_all_spec(s: Seq<char>, p: Seq<char>, r: Seq<char>) -> Seq<char>
    decreases s.len(),
{
    if p.len() == 0 || s.len() < p.len() {
        s
    } else if s.subrange(0, p.len() as int) == p {
        r + replace_all_spec(s.skip(p.len() as int), p, r)
    } else {
        seq![s[0]] + replace_all_spec(s.skip(1), p, r)
    }
}

proof fn lemma_replace_unfold_match(s: Seq<char>, p: Seq<char>, r: Seq<char>, i: int)
    requires
        0 < p.len(),
        0 <= i,
        matches_at(s, p, i),
    ensures
        replace_all_spec(s.skip(i), p, r) == r + replace_all_spec(s.skip(i + p.len()), p, r),
{
    let t = s.skip(i);
    assert(t.subrange(0, p.len() as int) =~= s.subrange(i, i + p.len() as int));
    assert(t.skip(p.len() as int) =~= s.skip(i + p.len()));
}

proof fn lemma_replace_unfold_nomatch(s: Seq<char>, p: Seq<char>, r: Seq<char>, i: int)
    requires
        0 < p.len(),
        0 <= i < s.len(),
        !matches_at(s, p, i),
    ensures
        replace_all_spec(s.skip(i), p, r) == seq![s[i]] + replace_all_spec(s.skip(i + 1), p, r),
{
    let t = s.skip(i);
    if t.len() < p.len() {
        assert(replace_all_spec(t, p, r) == t);
        assert(replace_all_spec(s.skip(i + 1), p, r) == s.skip(i + 1)) by {
            assert(s.skip(i + 1).len() < p.len());
        }
        assert(t =~= seq![s[i]] + s.skip(i + 1));
    } else {
        assert(t.subrange(0, p.len() as int) != p) by {
            if t.subrange(0, p.len() as int) == p {
                assert(t.subrange(0, p.len() as int) =~= s.subrange(i, i + p.len() as int));
                assert(matches_at(s, p, i));
            }
        }
        assert(t[0] == s[i]);
        assert(t.skip(1) =~= s.skip(i + 1));
    }
}

/// `s` with every occurrence of `pat` replaced by `rep`.
pub fn replace_all(s: &str, pat: &str, rep: &str) -> (out: String)
    requires
        pat@.len() > 0,
    ensures
        out@ == replace_all_spec(s@, pat@, rep@),
{
    let slen = s.unicode_len();
    let plen = pat.unicode_len();
    let mut out = String::new();
    let mut i: usize = 0;
    proof {
        assert(s@.skip(0) =~= s@);
        assert(out@ + replace_all_spec(s@, pat@, rep@) =~= replace_all_spec(s@, pat@, rep@));
    }
    while i < slen
        invariant
            i <= slen,
            slen == s@.len(),
            plen == pat@.len(),
            plen > 0,
            replace_all_spec(s@, pat@, rep@) == out@ + replace_all_spec(
                s@.skip(i as int),
                pat@,
                rep@,
            ),
        decreases slen - i,
    {
        if match_at(s, pat, i) {
            proof {
                lemma_replace_unfold_match(s@, pat@, rep@, i as int);
            }
            out.append(rep);
            i = i + plen;
        } else {
            proof {
                lemma_replace_unfold_nomatch(s@, pat@, rep@, i as int);
            }
            let c = s.substring_char(i, i + 1);
            proof {
                assert(c@ =~= seq![s@[i as int]]);
            }
            out.append(c);
            i = i + 1;
        }
    }
    proof {
        assert(s@.skip(i as int) =~= Seq::<char>::empty());
        assert(replace_all_spec(Seq::<char>::empty(), pat@, rep@) == Seq::<char>::empty());
        assert(out@ =~= out@ + Seq::<char>::empty());
    }
    out
}

/// The views of a sequence of strings.
pub open spec fn str_views(v: Seq<String>) -> Seq<Seq<char>> {
    v.map_values(|x: String| x@)
}

/// `s` divided at every character of `seps`, keeping empty pieces, with the
/// piece under construction `cur` in front.
pub open spec fn split_acc(s: Seq<char>, seps: Seq<char>, cur: Seq<char>) -> Seq<Seq<char>>
    decreases s.len(),
{
    if s.len() == 0 {
        seq![cur]
    } else if seps.contains(s[0]) {
        seq![cur] + split_acc(s.skip(1), seps, Seq::empty())
    } else {
        split_acc(s.skip(1), seps, cur.push(s[0]))
    }
}

/// `s` divided at every character of `seps`, keeping empty pieces; always at
/// least one piece.
pub open spec fn split_spec(s: Seq<char>, seps: Seq<char>) -> Seq<Seq<char>> {
    split_acc(s, seps, Seq::empty())
}

/// Splitting always yields at least one piece.
pub proof fn lemma_split_len_pos(s: Seq<char>, seps: Seq<char>, cur: Seq<char>)
    ensures
        split_acc(s, seps, cur).len() >= 1,
    decreases s.len(),
{
    if s.len() == 0 {
    } else if seps.contains(s[0]) {
        lemma_split_len_pos(s.skip(1), seps, Seq::empty());
    } else {
        lemma_split_len_pos(s.skip(1), seps, cur.push(s[0]));
    }
}

/// Whether `c` is one of the characters of `seps`.
fn char_in(seps: &Vec<char>, c: char) -> (r: bool)
    ensures
        r <==> seps@.contains(c),
{
    let n = seps.len();
    let mut i: usize = 0;
    while i < n
        invariant
            i <= n,
            n == seps@.len(),
            forall|j: int| 0 <= j < i ==> seps@[j] != c,
        decreases n - i,
    {
        if seps[i] == c {
            return true;
        }
        i = i + 1;
    }
    false
}

/// `s` split at every occurrence of a character of `seps`.
pub fn split_any(s: &str, seps: &Vec<char>) -> (parts: Vec<String>)
    ensures
        str_views(parts@) == split_spec(s@, seps@),
{
    let slen = s.unicode_len();
    let mut parts: Vec<String> = Vec::new();
    let mut cur = String::new();
    let mut i: usize = 0;
    proof {
        assert(s@.skip(0) =~= s@);
        assert(str_views(parts@) + split_acc(s@, seps@, cur@) =~= split_acc(s@, seps@, cur@));
    }
    while i < slen
        invariant
            i <= slen,
            slen == s@.len(),
            split_spec(s@, seps@) == str_views(parts@) + split_acc(s@.skip(i as int), seps@, cur@),
        decreases slen - i,
    {
        let ghost rest = s@.skip(i as int);
        let ghost cur0 = cur@;
        let ghost parts0 = parts@;
        proof {
            assert(rest[0] == s@[i as int]);
            assert(rest.skip(1) =~= s@.skip(i + 1));
        }
        let c = s.get_char(i);
        if char_in(seps, c) {
            parts.push(cur);
            cur = String::new();
            proof {
                assert(split_acc(rest, seps@, cur0) == seq![cur0] + split_acc(
                    rest.skip(1),
                    seps@,
                    Seq::empty(),
                ));
                assert(str_views(parts@) =~= str_views(parts0).push(cur0));
                assert(str_views(parts0) + (seq![cur0] + split_acc(
                    s@.skip(i + 1),
                    seps@,
                    Seq::empty(),
                )) =~= str_views(parts@) + split_acc(s@.skip(i + 1), seps@, Seq::empty()));
                assert(cur@ =~= Seq::<char>::empty());
            }
        } else {
            let piece = s.substring_char(i, i + 1);
            proof {
                assert(piece@ =~= seq![s@[i as int]]);
            }
            cur.append(piece);
            proof {
                assert(cur@ =~= cur0.push(rest[0]));
                assert(split_acc(rest, seps@, cur0) == split_acc(
                    rest.skip(1),
                    seps@,
                    cur0.push(rest[0]),
                ));
            }
        }
        i = i + 1;
    }
    let ghost parts0 = parts@;
    let ghost cur0 = cur@;
    proof {
        assert(s@.skip(i as int) =~= Seq::<char>::empty());
        assert(split_acc(Seq::<char>::empty(), seps@, cur0) == seq![cur0]);
    }
    parts.push(cur);
    proof {
        assert(str_views(parts@) =~= str_views(parts0).push(cur0));
        assert(str_views(parts0) + seq![cur0] =~= str_views(parts0).push(cur0));
    }
    parts
}

/// `s` split at every occurrence of `sep`.
pub fn split_char(s: &str, sep: char) -> (parts: Vec<String>)
    ensures
        str_views(parts@) == split_spec(s@, seq![sep]),
{
    let mut seps: Vec<char> = Vec::new();
    seps.push(sep);
    proof {
        assert(seps@ =~= seq![sep]);
    }
    split_any(s, &seps)
}

/// The pieces of `v` glued together with `sep` between neighbours.
pub open spec fn join_spec(v: Seq<Seq<char>>, sep: Seq<char>) -> Seq<char>
    decreases v.len(),
{
    if v.len() == 0 {
        Seq::empty()
    } else if v.len() == 1 {
        v[0]
    } else {
        join_spec(v.drop_last(), sep) + sep + v.last()
    }
}

/// The pieces of `parts` glued together with `sep` between neighbours.
pub fn join_with(parts: &Vec<String>, sep: &str) -> (out: String)
    ensures
        out@ == join_spec(str_views(parts@), sep@),
{
    let n = parts.len();
    let mut out = String::new();
    let mut i: usize = 0;
    while i < n
        invariant
            i <= n,
            n == parts@.len(),
            out@ == join_spec(str_views(parts@.take(i as int)), sep@),
        decreases n - i,
    {
        if i > 0 {
            out.append(sep);
        }
        out.append(parts[i].as_str());
        proof {
            let pre = str_views(parts@.take(i as int));
            let now = str_views(parts@.take(i + 1));
            assert(now =~= pre.push(parts@[i as int]@)) by {
                assert(forall|j: int| 0 <= j < now.len() ==> #[trigger] now[j] == parts@.take(
                    i + 1,
                )[j]@);
            }
            assert(now.drop_last() =~= pre);
            if i == 0 {
                assert(out@ =~= join_spec(now, sep@));
            }
        }
        i = i + 1;
    }
    proof {
        assert(parts@.take(n as int) =~= parts@);
    }
    out
}

/// `v` without its empty pieces.
pub open spec fn drop_empty_spec(v: Seq<Seq<char>>) -> Seq<Seq<char>>
    decreases v.len(),
{
    if v.len() == 0 {
        Seq::empty()
    } else {
        let rest = drop_empty_spec(v.drop_last());
        if v.last().len() == 0 {
            rest
        } else {
            rest.push(v.last())
        }
    }
}

/// The blank characters a whitespace split divides at.
pub open spec fn ws_chars() -> Seq<char> {
    seq![' ', '\t', '\n', '\r']
}

/// The non-empty words of `s`, divided at blanks.
pub open spec fn split_ws_spec(s: Seq<char>) -> Seq<Seq<char>> {
    drop_empty_spec(split_spec(s, ws_chars()))
}

/// The non-empty words of `s`, divided at blanks.
pub fn split_whitespace_vec(s: &str) -> (r: Vec<String>)
    ensures
        str_views(r@) == split_ws_spec(s@),
{
    let mut seps: Vec<char> = Vec::new();
    seps.push(' ');
    seps.push('\t');
    seps.push('\n');
    seps.push('\r');
    proof {
        assert(seps@ =~= ws_chars());
    }
    let parts = split_any(s, &seps);
    let ghost parts_v = str_views(parts@);
    let n = parts.len();
    let mut out: Vec<String> = Vec::new();
    let mut i: usize = 0;
    proof {
        assert(parts_v.take(0) =~= Seq::<Seq<char>>::empty());
        assert(str_views(out@) =~= drop_empty_spec(parts_v.take(0)));
    }
    while i < n
        invariant
            i <= n,
            n == parts@.len(),
            parts_v == str_views(parts@),
            str_views(out@) == drop_empty_spec(parts_v.take(i as int)),
        decreases n - i,
    {
        proof {
            assert(parts_v.take(i + 1).drop_last() =~= parts_v.take(i as int));
            assert(parts_v.take(i + 1).last() == parts@[i as int]@);
        }
        let ghost out0 = out@;
        if parts[i].as_str().unicode_len() > 0 {
            out.push(parts[i].clone());
            proof {
                assert(str_views(out@) =~= str_views(out0).push(parts@[i as int]@));
            }
        }
        i = i + 1;
    }
    proof {
        assert(parts_v.take(n as int) =~= parts_v);
    }
    out
}

/// Whether `c` is a decimal digit.
pub open spec fn is_digit_char(c: char) -> bool {
    '0' <= c && c <= '9'
}

/// The value of the digit `c`.
pub open spec fn digit_val(c: char) -> int {
    c as int - '0' as int
}

/// The value of a string of decimal digits, most significant first.
pub open spec fn digits_val(s: Seq<char>) -> int
    decreases s.len(),
{
    if s.len() == 0 {
        0
    } else {
        digits_val(s.drop_last()) * 10 + digit_val(s.last())
    }
}

/// Whether every character of `s` is a decimal digit.
pub open spec fn all_digits(s: Seq<char>) -> bool {
    forall|i: int| 0 <= i < s.len() ==> is_digit_char(s[i])
}

/// What `str::parse::<i32>` returns on `s`: an optional sign, then at least
/// one digit, and a value within the `i32` range; anything else fails.
pub open spec fn parse_i32_spec(s: Seq<char>) -> Option<i32> {
    let signed = s.len() > 0 && (s[0] == '+' || s[0] == '-');
    let neg = s.len() > 0 && s[0] == '-';
    let ds = if signed {
        s.skip(1)
    } else {
        s
    };
    if ds.len() == 0 || !all_digits(ds) {
        Option::None
    } else if neg && -digits_val(ds) >= i32::MIN {
        Option::Some((-digits_val(ds)) as i32)
    } else if !neg && digits_val(ds) <= i32::MAX {
        Option::Some(digits_val(ds) as i32)
    } else {
        Option::None
    }
}

proof fn lemma_digits_val_bounds(s: Seq<char>)
    requires
        all_digits(s),
    ensures
        digits_val(s) >= 0,
        s.len() > 0 ==> digits_val(s) >= digits_val(s.drop_last()),
    decreases s.len(),
{
    if s.len() > 0 {
        assert(all_digits(s.drop_last()));
        lemma_digits_val_bounds(s.drop_last());
    }
}

proof fn lemma_digits_val_prefix_grows(s: Seq<char>, k: int)
    requires
        all_digits(s),
        0 <= k <= s.len(),
    ensures
        digits_val(s.take(k)) <= digits_val(s),
    decreases s.len() - k,
{
    if k < s.len() {
        lemma_digits_val_prefix_grows(s, k + 1);
        let t = s.take(k + 1);
        assert(all_digits(t));
        assert(t.drop_last() =~= s.take(k));
        lemma_digits_val_bounds(t);
    } else {
        assert(s.take(k) =~= s);
    }
}

/// What `str::parse::<i32>` returns on `s`.
pub fn parse_i32(s: &str) -> (r: Option<i32>)
    ensures
        r == parse_i32_spec(s@),
{
    let slen = s.unicode_len();
    if slen == 0 {
        return None;
    }
    let first = s.get_char(0);
    let signed = first == '+' || first == '-';
    let neg = first == '-';
    let start: usize = if signed {
        1
    } else {
        0
    };
    let ghost ds = if signed {
        s@.skip(1)
    } else {
        s@
    };
    if slen == start {
        assert(ds.len() == 0);
        return None;
    }
    let mut acc: u64 = 0;
    let mut i: usize = start;
    while i < slen
        invariant
            start <= i <= slen,
            1 <= slen == s@.len(),
            signed == (s@[0] == '+' || s@[0] == '-'),
            neg == (s@[0] == '-'),
            ds == if signed {
                s@.skip(1)
            } else {
                s@
            },
            start == if signed {
                1usize
            } else {
                0usize
            },
            ds.len() == slen - start,
            forall|j: int| 0 <= j < ds.len() ==> ds[j] == s@[j + start],
            all_digits(ds.take(i - start)),
            acc == digits_val(ds.take(i - start)),
            acc <= 0x8000_0000u64,
        decreases slen - i,
    {
        let c = s.get_char(i);
        if c < '0' || c > '9' {
            assert(!all_digits(ds)) by {
                assert(ds[i - start] == c);
            }
            return None;
        }
        let d: u64 = (c as u32 as u64) - 48;
        proof {
            assert(ds.take(i + 1 - start).drop_last() =~= ds.take(i - start));
            assert(ds.take(i + 1 - start).last() == c);
            assert(all_digits(ds.take(i + 1 - start)));
        }
        let next: u64 = acc * 10 + d;
        if next > 0x8000_0000u64 {
            // Too large for every `i32`, whatever the sign and whatever
            // follows: later digits only grow the value.
            proof {
                if all_digits(ds) {
                    lemma_digits_val_prefix_grows(ds, i + 1 - start);
                    lemma_digits_val_bounds(ds);
                }
            }
            return None;
        }
        acc = next;
        i = i + 1;
    }
    proof {
        assert(ds.take(i - start) =~= ds);
    }
    if neg {
        let v: i64 = -(acc as i64);
        assert(i32::MIN <= v <= 0);
        Some(v as i32)
    } else {
        if acc > 0x7fff_ffffu64 {
            return None;
        }
        Some(acc as i32)
    }
}

/// The character of the decimal digit `d`.
pub open spec fn digit_char(d: int) -> char
    recommends
        0 <= d <= 9,
{
    if d == 0 {
        '0'
    } else if d == 1 {
        '1'
    } else if d == 2 {
        '2'
    } else if d == 3 {
        '3'
    } else if d == 4 {
        '4'
    } else if d == 5 {
        '5'
    } else if d == 6 {
        '6'
    } else if d == 7 {
        '7'
    } else if d == 8 {
        '8'
    } else {
        '9'
    }
}

/// The decimal representation of `n`, without sign or leading zeros.
pub open spec fn dec_spec(n: int) -> Seq<char>
    recommends
        n >= 0,
    decreases n,
{
    if n <= 9 {
        seq![digit_char(n)]
    } else {
        dec_spec(n / 10).push(digit_char(n % 10))
    }
}

fn digit_str(d: u64) -> (r: &'static str)
    requires
        d <= 9,
    ensures
        r@ == seq![digit_char(d as int)],
{
    proof {
        reveal_strlit("0");
        reveal_strlit("1");
        reveal_strlit("2");
        reveal_strlit("3");
        reveal_strlit("4");
        reveal_strlit("5");
        reveal_strlit("6");
        reveal_strlit("7");
        reveal_strlit("8");
        reveal_strlit("9");
    }
    let r: &'static str = if d == 0 {
        "0"
    } else if d == 1 {
        "1"
    } else if d == 2 {
        "2"
    } else if d == 3 {
        "3"
    } else if d == 4 {
        "4"
    } else if d == 5 {
        "5"
    } else if d == 6 {
        "6"
    } else if d == 7 {
        "7"
    } else if d == 8 {
        "8"
    } else {
        "9"
    };
    proof {
        assert(r@ =~= seq![digit_char(d as int)]);
    }
    r
}

/// The decimal representation of `n`.
pub fn u64_to_dec(n: u64) -> (out: String)
    ensures
        out@ == dec_spec(n as int),
    decreases n,
{
    if n <= 9 {
        let d = digit_str(n);
        let mut out = String::new();
        out.append(d);
        proof {
            assert(out@ =~= d@);
        }
        out
    } else {
        let mut out = u64_to_dec(n / 10);
        out.append(digit_str(n % 10));
        proof {
            assert(dec_spec(n as int) =~= dec_spec(n as int / 10).push(
                digit_char(n as int % 10),
            ));
            assert(out@ =~= dec_spec(n as int / 10) + seq![digit_char(n as int % 10)]);
        }
        out
    }
}

/// `c` with an ASCII capital letter turned into its small form.
pub open spec fn lower_char_spec(c: char) -> char {
    if 'A' <= c && c <= 'Z' {
        ((c as u8) + 32) as char
    } else {
        c
    }
}

/// `s` with every ASCII capital letter turned into its small form.
pub open spec fn to_lower_spec(s: Seq<char>) -> Seq<char> {
    s.map_values(|c: char| lower_char_spec(c))
}

fn lower_char(c: char) -> (r: char)
    ensures
        r == lower_char_spec(c),
{
    if c >= 'A' && c <= 'Z' {
        ((c as u8) + 32) as char
    } else {
        c
    }
}

/// Whether `pat` occurs in the ASCII-lowered form of `s`.
pub fn contains_lower(s: &str, pat: &str) -> (r: bool)
    ensures
        r <==> contains_seq(to_lower_spec(s@), pat@),
{
    let slen = s.unicode_len();
    let plen = pat.unicode_len();
    let ghost low = to_lower_spec(s@);
    if plen > slen {
        assert(!contains_seq(low, pat@));
        return false;
    }
    if plen == 0 {
        assert(matches_at(low, pat@, 0)) by {
            assert(low.subrange(0, 0) =~= pat@);
        }
        return true;
    }
    let mut i: usize = 0;
    while i <= slen - plen
        invariant
            0 < plen <= slen,
            slen == s@.len(),
            plen == pat@.len(),
            low == to_lower_spec(s@),
            i <= slen - plen + 1,
            forall|k: int| 0 <= k < i ==> !matches_at(low, pat@, k),
        decreases slen - i,
    {
        let mut j: usize = 0;
        let mut hit = true;
        while j < plen
            invariant
                j <= plen,
                i + plen <= slen,
                slen == s@.len(),
                plen == pat@.len(),
                low == to_lower_spec(s@),
                hit ==> forall|k: int| 0 <= k < j ==> low[i + k] == pat@[k],
                !hit ==> exists|k: int| 0 <= k < plen && low[i + k] != pat@[k],
            decreases plen - j,
        {
            if lower_char(s.get_char(i + j)) != pat.get_char(j) {
                hit = false;
                assert(low[i + j] != pat@[j as int]);
                assert(exists|k: int| 0 <= k < plen && low[i + k] != pat@[k]) by {
                    assert(0 <= j < plen && low[i + j] != pat@[j as int]);
                }
                j = plen;
            } else {
                assert(low[i + j] == pat@[j as int]);
                j = j + 1;
            }
        }
        if hit {
            assert(low.subrange(i as int, i + pat@.len() as int) =~= pat@);
            assert(matches_at(low, pat@, i as int));
            return true;
        } else {
            assert(!matches_at(low, pat@, i as int)) by {
                if matches_at(low, pat@, i as int) {
                    assert(forall|k: int|
                        0 <= k < pat@.len() ==> low.subrange(i as int, i + pat@.len() as int)[k]
                            == pat@[k]);
                    assert(forall|k: int| 0 <= k < pat@.len() ==> low[i + k] == pat@[k]);
                }
            }
        }
        i = i + 1;
    }
    assert forall|k: int| !matches_at(low, pat@, k) by {
        if matches_at(low, pat@, k) {
            assert(0 <= k < i);
        }
    }
    false
}

/// The position of the last occurrence of `c` in `s`.
pub fn rfind_char(s: &str, c: char) -> (r: Option<usize>)
    ensures
        match r {
            Option::Some(i) => i < s@.len() && s@[i as int] == c && forall|j: int|
                i < j < s@.len() ==> s@[j] != c,
            Option::None => forall|j: int| 0 <= j < s@.len() ==> s@[j] != c,
        },
{
    let slen = s.unicode_len();
    let mut i: usize = slen;
    while i > 0
        invariant
            i <= slen,
            slen == s@.len(),
            forall|j: int| i <= j < s@.len() ==> s@[j] != c,
        decreases i,
    {
        i = i - 1;
        if s.get_char(i) == c {
            return Some(i);
        }
    }
    None
}

/// Lexicographic order on character sequences, by code point; the order
/// `str::cmp` computes.
pub open spec fn lex_cmp_spec(a: Seq<char>, b: Seq<char>) -> core::cmp::Ordering
    decreases a.len(),
{
    if a.len() == 0 && b.len() == 0 {
        core::cmp::Ordering::Equal
    } else if a.len() == 0 {
        core::cmp::Ordering::Less
    } else if b.len() == 0 {
        core::cmp::Ordering::Greater
    } else if a[0] != b[0] {
        if a[0] < b[0] {
            core::cmp::Ordering::Less
        } else {
            core::cmp::Ordering::Greater
        }
    } else {
        lex_cmp_spec(a.skip(1), b.skip(1))
    }
}

/// Lexicographic comparison of two strings.
pub fn str_cmp(a: &str, b: &str) -> (r: core::cmp::Ordering)
    ensures
        r == lex_cmp_spec(a@, b@),
{
    let alen = a.unicode_len();
    let blen = b.unicode_len();
    let mut i: usize = 0;
    proof {
        assert(a@.skip(0) =~= a@);
        assert(b@.skip(0) =~= b@);
    }
    while i < alen && i < blen
        invariant
            i <= alen,
            i <= blen,
            alen == a@.len(),
            blen == b@.len(),
            lex_cmp_spec(a@, b@) == lex_cmp_spec(a@.skip(i as int), b@.skip(i as int)),
        decreases alen - i,
    {
        let ghost ra = a@.skip(i as int);
        let ghost rb = b@.skip(i as int);
        proof {
            assert(ra[0] == a@[i as int]);
            assert(rb[0] == b@[i as int]);
            assert(ra.skip(1) =~= a@.skip(i + 1));
            assert(rb.skip(1) =~= b@.skip(i + 1));
        }
        let ca = a.get_char(i);
        let cb = b.get_char(i);
        if ca != cb {
            if ca < cb {
                return core::cmp::Ordering::Less;
            } else {
                return core::cmp::Ordering::Greater;
            }
        }
        i = i + 1;
    }
    proof {
        if i == alen {
            assert(a@.skip(i as int) =~= Seq::<char>::empty());
        }
        if i == blen {
            assert(b@.skip(i as int) =~= Seq::<char>::empty());
        }
    }
    if alen == blen {
        core::cmp::Ordering::Equal
    } else if alen < blen {
        core::cmp::Ordering::Less
    } else {
        core::cmp::Ordering::Greater
    }
}

/// Whether the last character of `s` is `c`; false for an empty `s`.
pub fn ends_with_char(s: &str, c: char) -> (r: bool)
    ensures
        r <==> s@.len() > 0 && s@.last() == c,
{
    let slen = s.unicode_len();
    if slen == 0 {
        false
    } else {
        s.get_char(slen - 1) == c
    }
}

} // verus!
