//! Verified text helpers: ordering, substring search, trimming, index
//! parsing, decimal printing and path splitting.
use vstd::prelude::*;
use vstd::string::StrSliceExecFns;
use vstd::string::StringExecFns;

verus! {

/// Lexicographic `<` on character sequences, by code point; the order Rust
/// gives two strings.
pub open spec fn str_lt(a: Seq<char>, b: Seq<char>) -> bool
    decreases a.len(),
{
    if b.len() == 0 {
        false
    } else if a.len() == 0 {
        true
    } else if (a[0] as u32) < (b[0] as u32) {
        true
    } else if a[0] == b[0] {
        str_lt(a.drop_first(), b.drop_first())
    } else {
        false
    }
}

/// Whether `n` occurs in `h` as a contiguous run.
pub open spec fn str_has(h: Seq<char>, n: Seq<char>) -> bool {
    exists|i: int| 0 <= i && i + n.len() <= h.len() && #[trigger] h.subrange(i, i + n.len()) == n
}

/// The characters Rust's `str::trim` removes: Unicode white space.
pub open spec fn is_ws(c: char) -> bool {
    let u = c as u32;
    (9 <= u && u <= 13) || u == 32 || u == 0x85 || u == 0xA0 || u == 0x1680 || (0x2000 <= u && u
        <= 0x200A) || u == 0x2028 || u == 0x2029 || u == 0x202F || u == 0x205F || u == 0x3000
}

/// How many white-space characters the sequence starts with.
pub open spec fn ws_prefix(s: Seq<char>) -> int
    decreases s.len(),
{
    if s.len() == 0 || !is_ws(s[0]) {
        0
    } else {
        1 + ws_prefix(s.drop_first())
    }
}

/// How many white-space characters the sequence ends with.
pub open spec fn ws_suffix(s: Seq<char>) -> int
    decreases s.len(),
{
    if s.len() == 0 || !is_ws(s.last()) {
        0
    } else {
        1 + ws_suffix(s.drop_last())
    }
}

/// The sequence with white space removed from both ends.
pub open spec fn trim_of(s: Seq<char>) -> Seq<char> {
    if ws_prefix(s) == s.len() {
        Seq::empty()
    } else {
        s.subrange(ws_prefix(s), s.len() - ws_suffix(s))
    }
}

proof fn lemma_ws_prefix(s: Seq<char>)
    ensures
        0 <= ws_prefix(s) <= s.len(),
        forall|k: int| 0 <= k < ws_prefix(s) ==> is_ws(s[k]),
        ws_prefix(s) < s.len() ==> !is_ws(s[ws_prefix(s)]),
    decreases s.len(),
{
    if s.len() > 0 && is_ws(s[0]) {
        lemma_ws_prefix(s.drop_first());
        assert forall|k: int| 0 <= k < ws_prefix(s) implies is_ws(s[k]) by {
            if k > 0 {
                assert(s.drop_first()[k - 1] == s[k]);
            }
        }
    }
}

proof fn lemma_ws_suffix(s: Seq<char>)
    ensures
        0 <= ws_suffix(s) <= s.len(),
        forall|k: int| s.len() - ws_suffix(s) <= k < s.len() ==> is_ws(s[k]),
        ws_suffix(s) < s.len() ==> !is_ws(s[s.len() - ws_suffix(s) - 1]),
    decreases s.len(),
{
    if s.len() > 0 && is_ws(s.last()) {
        lemma_ws_suffix(s.drop_last());
        assert forall|k: int| s.len() - ws_suffix(s) <= k < s.len() implies is_ws(s[k]) by {
            if k < s.len() - 1 {
                assert(s.drop_last()[k] == s[k]);
            }
        }
    }
}

/// Whether the character is a white-space character, as `str::trim` sees it.
fn ws_char(c: char) -> (r: bool)
    ensures
        r == is_ws(c),
{
    let u = c as u32;
    (9 <= u && u <= 13) || u == 32 || u == 0x85 || u == 0xA0 || u == 0x1680 || (0x2000 <= u && u
        <= 0x200A) || u == 0x2028 || u == 0x2029 || u == 0x202F || u == 0x205F || u == 0x3000
}

/// The string with white space removed from both ends.
pub fn trim_str(s: &str) -> (r: String)
    ensures
        r@ == trim_of(s@),
{
    proof {
        lemma_ws_prefix(s@);
        lemma_ws_suffix(s@);
    }
    let len = s.unicode_len();
    let mut from: usize = 0;
    while from < len && ws_char(s.get_char(from))
        invariant
            0 <= from <= len,
            len == s@.len(),
            forall|k: int| 0 <= k < from ==> is_ws(s@[k]),
        decreases len - from,
    {
        from = from + 1;
    }
    assert(from == ws_prefix(s@));
    if from == len {
        return String::new();
    }
    let mut to: usize = len;
    while to > from && ws_char(s.get_char(to - 1))
        invariant
            from <= to <= len,
            len == s@.len(),
            forall|k: int| to <= k < len ==> is_ws(s@[k]),
            !is_ws(s@[from as int]),
        decreases to,
    {
        to = to - 1;
    }
    assert(to == s@.len() - ws_suffix(s@)) by {
        assert(!is_ws(s@[from as int]));
        assert(to > from);
    }
    let r = s.substring_char(from, to).to_owned();
    assert(r@ =~= trim_of(s@));
    r
}

/// Whether two strings hold the same characters.
pub fn eq_str(a: &str, b: &str) -> (r: bool)
    ensures
        r == (a@ == b@),
{
    let alen = a.unicode_len();
    let blen = b.unicode_len();
    if alen != blen {
        return false;
    }
    let mut i: usize = 0;
    while i < alen
        invariant
            0 <= i <= alen,
            alen == a@.len(),
            alen == b@.len(),
            forall|k: int| 0 <= k < i ==> a@[k] == b@[k],
        decreases alen - i,
    {
        if a.get_char(i) != b.get_char(i) {
            return false;
        }
        i = i + 1;
    }
    proof {
        assert(a@ =~= b@);
    }
    true
}

/// Lexicographic `<` on strings, by code point.
pub fn lt_str(a: &str, b: &str) -> (r: bool)
    ensures
        r == str_lt(a@, b@),
{
    let alen = a.unicode_len();
    let blen = b.unicode_len();
    proof {
        assert(a@.subrange(0, alen as int) =~= a@);
        assert(b@.subrange(0, blen as int) =~= b@);
    }
    let mut i: usize = 0;
    loop
        invariant
            0 <= i <= alen,
            i <= blen,
            alen == a@.len(),
            blen == b@.len(),
            forall|k: int| 0 <= k < i ==> a@[k] == b@[k],
            str_lt(a@, b@) == str_lt(a@.subrange(i as int, alen as int), b@.subrange(i as int, blen as int)),
        decreases alen - i,
    {
        if i >= blen {
            return false;
        }
        if i >= alen {
            return true;
        }
        let ca = a.get_char(i) as u32;
        let cb = b.get_char(i) as u32;
        if ca < cb {
            return true;
        }
        if ca > cb {
            return false;
        }
        proof {
            let sa = a@.subrange(i as int, alen as int);
            let sb = b@.subrange(i as int, blen as int);
            assert(sa.drop_first() =~= a@.subrange(i + 1, alen as int));
            assert(sb.drop_first() =~= b@.subrange(i + 1, blen as int));
        }
        i = i + 1;
    }
}

/// Whether `n` occurs in `h` as a contiguous run of characters.
pub fn has_str(h: &str, n: &str) -> (r: bool)
    ensures
        r == str_has(h@, n@),
{
    let hlen = h.unicode_len();
    let nlen = n.unicode_len();
    if nlen > hlen {
        return false;
    }
    if nlen == 0 {
        proof {
            assert(0 + n@.len() <= h@.len() && h@.subrange(0, 0 + n@.len() as int) =~= n@);
        }
        return true;
    }
    let mut i: usize = 0;
    while i <= hlen - nlen
        invariant
            0 <= i,
            i <= hlen - nlen + 1,
            1 <= nlen <= hlen,
            hlen == h@.len(),
            nlen == n@.len(),
            forall|ii: int| 0 <= ii < i ==> #[trigger] h@.subrange(ii, ii + n@.len()) != n@,
        decreases hlen - nlen + 1 - i,
    {
        let mut j: usize = 0;
        let mut matched = true;
        while j < nlen
            invariant
                0 <= j <= nlen,
                i + nlen <= hlen,
                hlen == h@.len(),
                nlen == n@.len(),
                matched ==> forall|k: int| 0 <= k < j ==> h@[i + k] == n@[k],
                !matched ==> h@.subrange(i as int, i + n@.len()) != n@,
            decreases nlen - j,
        {
            if h.get_char(i + j) != n.get_char(j) {
                proof {
                    assert(h@.subrange(i as int, i + n@.len())[j as int] == h@[i + j]);
                }
                matched = false;
                j = nlen;
            } else {
                j = j + 1;
            }
        }
        if matched {
            proof {
                assert(h@.subrange(i as int, i + n@.len()) =~= n@);
            }
            return true;
        }
        i = i + 1;
    }
    proof {
        assert forall|ii: int| 0 <= ii && ii + n@.len() <= h@.len() implies #[trigger] h@.subrange(
            ii,
            ii + n@.len(),
        ) != n@ by {
            assert(ii < i);
        }
    }
    false
}

/// The numeric value of a decimal digit character.
pub open spec fn dig_val(c: char) -> int {
    c as u32 - 48
}

/// Whether the character is a decimal digit.
pub open spec fn is_digit(c: char) -> bool {
    48 <= c as u32 && c as u32 <= 57
}

/// The value of a run of decimal digits.
pub open spec fn digits_val(s: Seq<char>) -> int
    decreases s.len(),
{
    if s.len() == 0 {
        0
    } else {
        digits_val(s.drop_last()) * 10 + dig_val(s.last())
    }
}

/// Whether every character of the run is a decimal digit.
pub open spec fn all_digits(s: Seq<char>) -> bool {
    forall|k: int| 0 <= k < s.len() ==> is_digit(s[k])
}

/// What Rust's `usize` parser makes of the text: an optional `+` sign, then
/// one or more decimal digits. The value is unbounded here; the parser
/// itself also fails on values over `usize::MAX`.
pub open spec fn parse_index(s: Seq<char>) -> Option<int> {
    let body = if s.len() > 0 && s[0] == '+' {
        s.drop_first()
    } else {
        s
    };
    if body.len() > 0 && all_digits(body) {
        Some(digits_val(body))
    } else {
        None
    }
}

proof fn lemma_digits_val_bounds(s: Seq<char>)
    requires
        all_digits(s),
    ensures
        digits_val(s) >= 0,
        s.len() > 0 ==> digits_val(s) >= digits_val(s.drop_last()),
    decreases s.len(),
{
    if s.len() > 0 {
        assert(all_digits(s.drop_last()));
        lemma_digits_val_bounds(s.drop_last());
        assert(digits_val(s.drop_last()) * 10 >= digits_val(s.drop_last())) by (nonlinear_arith)
            requires
                digits_val(s.drop_last()) >= 0,
        ;
    }
}

proof fn lemma_digits_val_prefix(s: Seq<char>, k: int)
    requires
        all_digits(s),
        0 <= k <= s.len(),
    ensures
        digits_val(s) >= digits_val(s.subrange(0, k)),
    decreases s.len() - k,
{
    if k < s.len() {
        lemma_digits_val_prefix(s, k + 1);
        let p1 = s.subrange(0, k + 1);
        assert(all_digits(p1));
        assert(p1.drop_last() =~= s.subrange(0, k));
        lemma_digits_val_bounds(p1);
    } else {
        assert(s.subrange(0, k) =~= s);
    }
}

/// Reads the text as an array index the way Rust's `usize` parser does.
/// `None` covers both shapes the parser rejects and values over
/// `usize::MAX`; a caller treats both as an out-of-range index.
pub fn parse_index_str(s: &str) -> (r: Option<usize>)
    ensures
        r matches Some(u) ==> parse_index(s@) == Some(u as int),
        r is None ==> (parse_index(s@) is None || (parse_index(s@) matches Some(v) && v
            > usize::MAX)),
{
    let len = s.unicode_len();
    let mut start: usize = 0;
    if len > 0 && s.get_char(0) == '+' {
        start = 1;
    }
    let ghost body = if s@.len() > 0 && s@[0] == '+' {
        s@.drop_first()
    } else {
        s@
    };
    proof {
        assert(body =~= s@.subrange(start as int, len as int));
    }
    if start == len {
        return None;
    }
    let mut i: usize = start;
    let mut val: usize = 0;
    while i < len
        invariant
            start <= i <= len,
            len == s@.len(),
            start == (if s@.len() > 0 && s@[0] == '+' {
                1int
            } else {
                0int
            }),
            body == s@.subrange(start as int, len as int),
            all_digits(s@.subrange(start as int, i as int)),
            val as int == digits_val(s@.subrange(start as int, i as int)),
        decreases len - i,
    {
        let c = s.get_char(i);
        let u = c as u32;
        if !(48 <= u && u <= 57) {
            proof {
                assert(body[i - start] == s@[i as int]);
            }
            return None;
        }
        let d = (u - 48) as usize;
        let ghost pre = s@.subrange(start as int, i as int);
        let ghost pre1 = s@.subrange(start as int, i + 1);
        proof {
            assert(pre1.drop_last() =~= pre);
            assert(pre1.last() == s@[i as int]);
            assert(all_digits(pre1));
        }
        if val > (usize::MAX - d) / 10 {
            proof {
                assert(digits_val(pre1) == val as int * 10 + d);
                assert(val as int * 10 + d > usize::MAX) by (nonlinear_arith)
                    requires
                        val as int > (usize::MAX as int - d) / 10,
                        0 <= d <= 9,
                ;
                assert(digits_val(pre1) > usize::MAX);
                assert((if s@.len() > 0 && s@[0] == '+' {
                    s@.drop_first()
                } else {
                    s@
                }) =~= body);
                if all_digits(body) {
                    lemma_digits_val_prefix(body, i + 1 - start);
                    assert(body.subrange(0, i + 1 - start) =~= pre1);
                    assert(digits_val(body) >= digits_val(pre1));
                    assert(body.len() > 0);
                    assert(parse_index(s@) == Some(digits_val(body)));
                } else {
                    assert(body.len() > 0);
                    assert(parse_index(s@) is None);
                }
            }
            return None;
        }
        proof {
            assert(val as int * 10 + d <= usize::MAX) by (nonlinear_arith)
                requires
                    val as int <= (usize::MAX as int - d) / 10,
                    0 <= d <= 9,
            ;
        }
        val = val * 10 + d;
        i = i + 1;
    }
    proof {
        assert(s@.subrange(start as int, len as int) =~= body);
    }
    Some(val)
}

/// The decimal text of a non-negative integer.
pub open spec fn dec_str(n: int) -> Seq<char>
    decreases n,
{
    if n < 10 {
        seq![("0123456789")@[if 0 <= n { n } else { 0 }]]
    } else {
        dec_str(n / 10).push(("0123456789")@[n % 10])
    }
}

/// The decimal text of an integer, with a leading minus where negative.
pub open spec fn int_str(i: int) -> Seq<char> {
    if i < 0 {
        seq!['-'] + dec_str(-i)
    } else {
        dec_str(i)
    }
}

/// Prints a `u64` in decimal, as Rust and serde_json print integers.
pub fn u64_str(u: u64) -> (r: String)
    ensures
        r@ == dec_str(u as int),
    decreases u,
{
    let digits = "0123456789";
    proof {
        reveal_strlit("0123456789");
    }
    let d = (u % 10) as usize;
    let ds = digits.substring_char(d, d + 1);
    proof {
        assert(ds@ =~= seq![("0123456789")@[u as int % 10]]);
    }
    if u < 10 {
        ds.to_owned()
    } else {
        let mut front = u64_str(u / 10);
        front.append(ds);
        proof {
            assert(front@ =~= dec_str(u as int));
        }
        front
    }
}

/// Prints an `i64` in decimal, as Rust and serde_json print integers.
pub fn i64_str(i: i64) -> (r: String)
    ensures
        r@ == int_str(i as int),
{
    if i >= 0 {
        u64_str(i as u64)
    } else {
        let u = (-(i as i128)) as u64;
        let mut r = String::from_str("-");
        let back = u64_str(u);
        r.append(back.as_str());
        proof {
            reveal_strlit("-");
            assert(r@ =~= int_str(i as int));
        }
        r
    }
}

/// Where the first `.` stands in the sequence, or its length where none does.
pub open spec fn first_dot(s: Seq<char>) -> int
    decreases s.len(),
{
    if s.len() == 0 || s[0] == '.' {
        0
    } else {
        1 + first_dot(s.drop_first())
    }
}

/// The runs between the `.` separators, the way Rust's `split('.')` cuts
/// them: an empty text gives one empty run, and every separator opens a
/// new run.
pub open spec fn split_dots(s: Seq<char>) -> Seq<Seq<char>>
    decreases s.len(),
{
    let i = first_dot(s);
    if 0 <= i < s.len() {
        seq![s.subrange(0, i)] + split_dots(s.subrange(i + 1, s.len() as int))
    } else {
        seq![s]
    }
}

proof fn lemma_first_dot(s: Seq<char>)
    ensures
        0 <= first_dot(s) <= s.len(),
        forall|k: int| 0 <= k < first_dot(s) ==> s[k] != '.',
        first_dot(s) < s.len() ==> s[first_dot(s)] == '.',
    decreases s.len(),
{
    if s.len() > 0 && s[0] != '.' {
        lemma_first_dot(s.drop_first());
        assert forall|k: int| 0 <= k < first_dot(s) implies s[k] != '.' by {
            if k > 0 {
                assert(s.drop_first()[k - 1] == s[k]);
            }
        }
    }
}

/// Splits the string at every `.`, as Rust's `split('.')` does.
pub fn split_dots_str(s: &str) -> (r: Vec<String>)
    ensures
        r@.len() == split_dots(s@).len(),
        forall|k: int| 0 <= k < r@.len() ==> r@[k]@ == split_dots(s@)[k],
    decreases s@.len(),
{
    proof {
        lemma_first_dot(s@);
    }
    let len = s.unicode_len();
    let mut i: usize = 0;
    while i < len && s.get_char(i) != '.'
        invariant
            0 <= i <= len,
            len == s@.len(),
            forall|k: int| 0 <= k < i ==> s@[k] != '.',
        decreases len - i,
    {
        i = i + 1;
    }
    assert(i == first_dot(s@));
    if i == len {
        let mut r: Vec<String> = Vec::new();
        r.push(s.to_owned());
        r
    } else {
        let head = s.substring_char(0, i).to_owned();
        let rest = s.substring_char(i + 1, len);
        let tail = split_dots_str(rest);
        let mut r: Vec<String> = Vec::new();
        r.push(head);
        let mut k: usize = 0;
        while k < tail.len()
            invariant
                0 <= k <= tail@.len(),
                r@.len() == 1 + k,
                r@[0]@ == s@.subrange(0, first_dot(s@)),
                rest@ == s@.subrange(first_dot(s@) + 1, s@.len() as int),
                forall|j: int| 0 <= j < tail@.len() ==> tail@[j]@ == split_dots(rest@)[j],
                forall|j: int| 0 <= j < k ==> r@[j + 1]@ == split_dots(rest@)[j],
            decreases tail@.len() - k,
        {
            let seg = tail[k].clone();
            r.push(seg);
            k = k + 1;
        }
        proof {
            assert(forall|j: int| 0 <= j < r@.len() ==> r@[j]@ == split_dots(s@)[j]);
        }
        r
    }
}

} // verus!
