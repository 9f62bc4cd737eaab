use vstd::prelude::*;

verus! {

broadcast use vstd::string::group_string_axioms;

/// `String::push` appends one character to the end of the string.
pub assume_specification[ String::push ](s: &mut String, ch: char)
    ensures
        final(s)@ == old(s)@.push(ch),
;

/// The kind of JavaScript string literal a piece of text is embedded in.
/// Each kind names the characters that must be preceded by a backslash.
#[derive(Clone, Copy, Debug, PartialEq, Eq, Structural)]
pub enum EscapeStyle {
    /// A literal in single quotes: backslash and `'` are escaped.
    SingleQuoted,
    /// A literal in single quotes where only `'` is escaped.
    QuoteOnly,
    /// A template literal: backslash, backtick and `$` are escaped.
    Template,
    /// A literal in double quotes: backslash and `"` are escaped.
    DoubleQuoted,
}

pub open spec fn is_special(style: EscapeStyle, c: char) -> bool {
    match style {
        EscapeStyle::SingleQuoted => c == '\\' || c == '\'',
        EscapeStyle::QuoteOnly => c == '\'',
        EscapeStyle::Template => c == '\\' || c == '`' || c == '$',
        EscapeStyle::DoubleQuoted => c == '\\' || c == '"',
    }
}

/// Whether the style escapes the backslash itself.
pub open spec fn escapes_backslash(style: EscapeStyle) -> bool {
    is_special(style, '\\')
}

/// The escaped form of `s`: every special character is preceded by a backslash,
/// every other character is kept as it is.
pub open spec fn escaped(style: EscapeStyle, s: Seq<char>) -> Seq<char>
    decreases s.len(),
{
    if s.len() == 0 {
        Seq::empty()
    } else if is_special(style, s.last()) {
        escaped(style, s.drop_last()) + seq!['\\', s.last()]
    } else {
        escaped(style, s.drop_last()).push(s.last())
    }
}

/// Reads a backslash-escaped text back: a backslash followed by a character
/// stands for that character.
pub open spec fn unescaped(s: Seq<char>) -> Seq<char>
    decreases s.len(),
{
    if s.len() == 0 {
        Seq::empty()
    } else if s[0] == '\\' && s.len() >= 2 {
        seq![s[1]] + unescaped(s.subrange(2, s.len() as int))
    } else {
        seq![s[0]] + unescaped(s.subrange(1, s.len() as int))
    }
}

fn is_special_char(style: EscapeStyle, c: char) -> (r: bool)
    ensures
        r == is_special(style, c),
{
    match style {
        EscapeStyle::SingleQuoted => c == '\\' || c == '\'',
        EscapeStyle::QuoteOnly => c == '\'',
        EscapeStyle::Template => c == '\\' || c == '`' || c == '$',
        EscapeStyle::DoubleQuoted => c == '\\' || c == '"',
    }
}

/// Escapes `value` for embedding in a JavaScript literal of the given style.
pub fn escape(style: EscapeStyle, value: &str) -> (out: String)
    ensures
        out@ == escaped(style, value@),
{
    let mut out = String::new();
    for c in it: value.chars()
        invariant
            it.seq() == value@,
            out@ == escaped(style, value@.take(it.index() as int)),
    {
        proof {
            assert(value@.take(it.index() + 1).drop_last() =~= value@.take(it.index() as int));
        }
        if is_special_char(style, c) {
            out.push('\\');
        }
        out.push(c);
    }
    proof {
        assert(value@.take(value@.len() as int) =~= value@);
    }
    out
}

/// Escaping distributes over concatenation.
pub proof fn lemma_escaped_concat(style: EscapeStyle, a: Seq<char>, b: Seq<char>)
    ensures
        escaped(style, a + b) == escaped(style, a) + escaped(style, b),
    decreases b.len(),
{
    if b.len() == 0 {
        assert(a + b =~= a);
        assert(escaped(style, b) =~= Seq::<char>::empty());
        assert(escaped(style, a) + escaped(style, b) =~= escaped(style, a));
    } else {
        assert((a + b).drop_last() =~= a + b.drop_last());
        assert((a + b).last() == b.last());
        lemma_escaped_concat(style, a, b.drop_last());
        if is_special(style, b.last()) {
            assert(escaped(style, a) + (escaped(style, b.drop_last()) + seq!['\\', b.last()])
                =~= (escaped(style, a) + escaped(style, b.drop_last())) + seq!['\\', b.last()]);
        } else {
            assert(escaped(style, a) + escaped(style, b.drop_last()).push(b.last())
                =~= (escaped(style, a) + escaped(style, b.drop_last())).push(b.last()));
        }
    }
}

/// Reading the escaped text back gives the unescaped text again, whenever the style
/// escapes the backslash or the text holds none.
pub proof fn lemma_escape_round_trip(style: EscapeStyle, s: Seq<char>)
    requires
        escapes_backslash(style) || !s.contains('\\'),
    ensures
        unescaped(escaped(style, s)) == s,
    decreases s.len(),
{
    if s.len() == 0 {
        assert(escaped(style, s) =~= Seq::<char>::empty());
    } else {
        let c = s[0];
        let t = s.subrange(1, s.len() as int);
        assert(s =~= seq![c] + t);
        lemma_escaped_concat(style, seq![c], t);
        assert(seq![c].drop_last() =~= Seq::<char>::empty());
        assert(escaped(style, Seq::<char>::empty()) =~= Seq::<char>::empty());
        if !escapes_backslash(style) {
            assert forall|x: char| t.contains(x) implies s.contains(x) by {
                let k = choose|k: int| 0 <= k < t.len() && t[k] == x;
                assert(s[k + 1] == x);
            }
            assert(s[0] == c);
            assert(c != '\\');
        }
        lemma_escape_round_trip(style, t);
        let e = escaped(style, t);
        if is_special(style, c) {
            assert(escaped(style, seq![c]) =~= seq!['\\', c]);
            let w = seq!['\\', c] + e;
            assert(w.subrange(2, w.len() as int) =~= e);
            assert(unescaped(w) =~= seq![c] + unescaped(e));
        } else {
            assert(escaped(style, seq![c]) =~= seq![c]);
            let w = seq![c] + e;
            assert(c != '\\');
            assert(w.subrange(1, w.len() as int) =~= e);
            assert(unescaped(w) =~= seq![c] + unescaped(e));
        }
    }
}

/// The number of backslashes that stand right before position `i` of `s`.
pub open spec fn backslashes_before(s: Seq<char>, i: int) -> nat
    decreases i,
{
    if i <= 0 || i > s.len() {
        0
    } else if s[i - 1] == '\\' {
        1 + backslashes_before(s, i - 1)
    } else {
        0
    }
}

proof fn lemma_backslashes_prefix(a: Seq<char>, b: Seq<char>, i: int)
    requires
        0 <= i <= a.len(),
    ensures
        backslashes_before(a + b, i) == backslashes_before(a, i),
    decreases i,
{
    if i > 0 {
        assert((a + b)[i - 1] == a[i - 1]);
        lemma_backslashes_prefix(a, b, i - 1);
    }
}

/// In text escaped by a style that escapes the backslash, every quote character `q` that
/// the style escapes follows an odd number of backslashes, and the text does not end in
/// an odd number of backslashes. So a literal of that style, quoted with `q`, ends at its
/// own closing quote and not inside the escaped text.
pub proof fn lemma_escaped_quotes_stay_inside(style: EscapeStyle, s: Seq<char>, q: char)
    requires
        escapes_backslash(style),
        is_special(style, q),
        q != '\\',
    ensures
        backslashes_before(escaped(style, s), escaped(style, s).len() as int) % 2 == 0,
        forall|i: int|
            0 <= i < escaped(style, s).len() && #[trigger] escaped(style, s)[i] == q
                ==> backslashes_before(escaped(style, s), i) % 2 == 1,
    decreases s.len(),
{
    if s.len() > 0 {
        let e0 = escaped(style, s.drop_last());
        let c = s.last();
        let n = e0.len() as int;
        lemma_escaped_quotes_stay_inside(style, s.drop_last(), q);
        let tail = if is_special(style, c) {
            seq!['\\', c]
        } else {
            seq![c]
        };
        let e = e0 + tail;
        assert(escaped(style, s) =~= e);
        assert forall|i: int| 0 <= i <= n implies backslashes_before(e, i) == backslashes_before(e0, i) by {
            lemma_backslashes_prefix(e0, tail, i);
        }
        assert forall|i: int| 0 <= i < e.len() && #[trigger] e[i] == q implies backslashes_before(e, i) % 2 == 1 by {
            if i < n {
                assert(e[i] == e0[i]);
            }
        }
        if is_special(style, c) {
            assert(e[n] == '\\');
            assert(backslashes_before(e, n + 1) == 1 + backslashes_before(e, n));
        }
    }
}

/// The value inside a single-quoted literal, as every locator selector writes it: each `'` in it
/// follows an odd number of backslashes and it does not end in an odd number of them, so
/// the literal ends at its own closing quote; reading its backslash escapes gives back
/// exactly the searched value.
pub proof fn lemma_single_quoted_literal(v: Seq<char>)
    ensures
        forall|i: int|
            0 <= i < escaped(EscapeStyle::SingleQuoted, v).len() && #[trigger] escaped(
                EscapeStyle::SingleQuoted,
                v,
            )[i] == '\'' ==> backslashes_before(escaped(EscapeStyle::SingleQuoted, v), i) % 2 == 1,
        backslashes_before(
            escaped(EscapeStyle::SingleQuoted, v),
            escaped(EscapeStyle::SingleQuoted, v).len() as int,
        ) % 2 == 0,
        unescaped(escaped(EscapeStyle::SingleQuoted, v)) == v,
{
    lemma_escaped_quotes_stay_inside(EscapeStyle::SingleQuoted, v, '\'');
    lemma_escape_round_trip(EscapeStyle::SingleQuoted, v);
}

/// `s` with its first occurrence of `from` replaced by `to` (`str::replacen` with a count
/// of one); `s` itself when `from` does not occur.
pub open spec fn replace_first(s: Seq<char>, from: Seq<char>, to: Seq<char>) -> Seq<char>
    decreases s.len(),
{
    if from.len() == 0 || s.len() < from.len() {
        s
    } else if s.subrange(0, from.len() as int) == from {
        to + s.subrange(from.len() as int, s.len() as int)
    } else {
        seq![s[0]] + replace_first(s.subrange(1, s.len() as int), from, to)
    }
}

/// Where `from` occurs right after a prefix `p` and no occurrence of it starts inside
/// `p`, that occurrence is the first one.
pub proof fn lemma_replace_first_after(p: Seq<char>, from: Seq<char>, to: Seq<char>, r: Seq<char>)
    requires
        from.len() > 0,
        forall|k: int|
            0 <= k < p.len() ==> #[trigger] (p + from + r).subrange(k, k + from.len()) != from,
    ensures
        replace_first(p + from + r, from, to) == p + to + r,
    decreases p.len(),
{
    let s = p + from + r;
    if p.len() == 0 {
        assert(s.subrange(0, from.len() as int) =~= from);
        assert(s.subrange(from.len() as int, s.len() as int) =~= r);
        assert(to + r =~= p + to + r);
    } else {
        assert(s.subrange(0int, 0int + from.len()) != from);
        let p1 = p.subrange(1, p.len() as int);
        let s1 = s.subrange(1, s.len() as int);
        assert(s1 =~= p1 + from + r);
        assert forall|k: int| 0 <= k < p1.len() implies #[trigger] (p1 + from + r).subrange(
            k,
            k + from.len(),
        ) != from by {
            assert((p1 + from + r).subrange(k, k + from.len()) =~= s.subrange(
                k + 1,
                k + 1 + from.len(),
            ));
        }
        lemma_replace_first_after(p1, from, to, r);
        assert(seq![s[0]] + (p1 + to + r) =~= p + to + r);
    }
}

/// `lemma_replace_first_after` where the prefix does not hold the first character of
/// `from`.
pub proof fn lemma_replace_first_after_char(p: Seq<char>, from: Seq<char>, to: Seq<char>, r: Seq<char>)
    requires
        from.len() > 0,
        forall|k: int| 0 <= k < p.len() ==> p[k] != from[0],
    ensures
        replace_first(p + from + r, from, to) == p + to + r,
{
    assert forall|k: int| 0 <= k < p.len() implies #[trigger] (p + from + r).subrange(
        k,
        k + from.len(),
    ) != from by {
        assert((p + from + r).subrange(k, k + from.len())[0] == p[k]);
    }
    lemma_replace_first_after(p, from, to, r);
}

/// `s` holds only spaces and line feeds.
pub open spec fn is_blank(s: Seq<char>) -> bool {
    forall|i: int| 0 <= i < s.len() ==> s[i] == ' ' || s[i] == '\n'
}

pub open spec fn digit_char(d: nat) -> char {
    if d == 0 {
        '0'
    } else if d == 1 {
        '1'
    } else if d == 2 {
        '2'
    } else if d == 3 {
        '3'
    } else if d == 4 {
        '4'
    } else if d == 5 {
        '5'
    } else if d == 6 {
        '6'
    } else if d == 7 {
        '7'
    } else if d == 8 {
        '8'
    } else {
        '9'
    }
}

/// The decimal notation of a natural number, without leading zeros.
pub open spec fn decimal(n: nat) -> Seq<char>
    decreases n,
{
    if n < 10 {
        seq![digit_char(n)]
    } else {
        decimal(n / 10).push(digit_char(n % 10))
    }
}

/// The decimal notation of an integer, with a leading `-` when it is negative.
pub open spec fn signed_decimal(i: int) -> Seq<char> {
    if i < 0 {
        seq!['-'] + decimal((-i) as nat)
    } else {
        decimal(i as nat)
    }
}

/// The notation of a boolean in JavaScript and in Rust's formatting.
pub open spec fn bool_text(b: bool) -> Seq<char> {
    if b {
        seq!['t', 'r', 'u', 'e']
    } else {
        seq!['f', 'a', 'l', 's', 'e']
    }
}

fn digit(d: u64) -> (c: char)
    requires
        d < 10,
    ensures
        c == digit_char(d as nat),
{
    if d == 0 {
        '0'
    } else if d == 1 {
        '1'
    } else if d == 2 {
        '2'
    } else if d == 3 {
        '3'
    } else if d == 4 {
        '4'
    } else if d == 5 {
        '5'
    } else if d == 6 {
        '6'
    } else if d == 7 {
        '7'
    } else if d == 8 {
        '8'
    } else {
        '9'
    }
}

/// Writes `n` in decimal.
pub fn decimal_u64(n: u64) -> (s: String)
    ensures
        s@ == decimal(n as nat),
    decreases n,
{
    if n < 10 {
        let mut s = String::new();
        s.push(digit(n));
        proof {
            assert(s@ =~= seq![digit_char(n as nat)]);
        }
        s
    } else {
        let mut s = decimal_u64(n / 10);
        s.push(digit(n % 10));
        s
    }
}

/// Writes `n` in decimal, with a leading `-` when it is negative.
pub fn decimal_i64(n: i64) -> (s: String)
    ensures
        s@ == signed_decimal(n as int),
{
    if n < 0 {
        let m: u64 = if n == i64::MIN {
            9223372036854775808u64
        } else {
            (-n) as u64
        };
        let digits = decimal_u64(m);
        let mut s = String::new();
        s.push('-');
        s.append(digits.as_str());
        proof {
            assert(s@ =~= seq!['-'] + decimal((-(n as int)) as nat));
        }
        s
    } else {
        decimal_u64(n as u64)
    }
}

/// Writes a boolean as `true` or `false`.
pub fn bool_string(b: bool) -> (s: String)
    ensures
        s@ == bool_text(b),
{
    let mut s = String::new();
    if b {
        s.push('t');
        s.push('r');
        s.push('u');
        s.push('e');
    } else {
        s.push('f');
        s.push('a');
        s.push('l');
        s.push('s');
        s.push('e');
    }
    proof {
        assert(s@ =~= bool_text(b));
    }
    s
}

proof fn lemma_decimal_len(n: nat)
    ensures
        decimal(n).len() >= 1,
        n < 10 <==> decimal(n).len() == 1,
    decreases n,
{
    if n >= 10 {
        lemma_decimal_len(n / 10);
    }
}

proof fn lemma_digit_char_injective(a: nat, b: nat)
    requires
        a < 10,
        b < 10,
        digit_char(a) == digit_char(b),
    ensures
        a == b,
{
}

/// Different numbers have different decimal notations.
pub proof fn lemma_decimal_injective(a: nat, b: nat)
    requires
        decimal(a) == decimal(b),
    ensures
        a == b,
    decreases a,
{
    lemma_decimal_len(a);
    lemma_decimal_len(b);
    if a < 10 {
        assert(b < 10);
        assert(decimal(a) == seq![digit_char(a)]);
        assert(decimal(b) == seq![digit_char(b)]);
        assert(seq![digit_char(a)][0] == digit_char(a));
        assert(seq![digit_char(b)][0] == digit_char(b));
        lemma_digit_char_injective(a, b);
    } else {
        assert(b >= 10);
        assert(decimal(a) == decimal(a / 10).push(digit_char(a % 10)));
        assert(decimal(b) == decimal(b / 10).push(digit_char(b % 10)));
        assert(decimal(a / 10).push(digit_char(a % 10)).last() == digit_char(a % 10));
        assert(decimal(b / 10).push(digit_char(b % 10)).last() == digit_char(b % 10));
        assert(decimal(a).drop_last() =~= decimal(a / 10));
        assert(decimal(b).drop_last() =~= decimal(b / 10));
        lemma_digit_char_injective(a % 10, b % 10);
        lemma_decimal_injective(a / 10, b / 10);
    }
}

/// Concatenates three pieces of text.
pub fn concat3(a: &str, b: &str, c: &str) -> (s: String)
    ensures
        s@ == a@ + b@ + c@,
{
    let mut s = String::new();
    s.append(a);
    s.append(b);
    s.append(c);
    proof {
        assert(s@ =~= a@ + b@ + c@);
    }
    s
}

/// Whether two texts are equal.
pub fn text_eq(a: &str, b: &str) -> (r: bool)
    ensures
        r == (a@ == b@),
{
    let x = a.to_string();
    let y = b.to_string();
    x == y
}

/// `pat` occurs in `s` starting at position `i`.
pub open spec fn occurs_at(s: Seq<char>, pat: Seq<char>, i: int) -> bool {
    0 <= i && i + pat.len() <= s.len() && s.subrange(i, i + pat.len()) == pat
}

/// `pat` occurs somewhere in `s`.
pub open spec fn contains_text(s: Seq<char>, pat: Seq<char>) -> bool {
    exists|i: int| occurs_at(s, pat, i)
}

fn chars_of(s: &str) -> (v: Vec<char>)
    ensures
        v@ == s@,
{
    let mut v: Vec<char> = Vec::new();
    for c in it: s.chars()
        invariant
            it.seq() == s@,
            v@ == s@.take(it.index() as int),
    {
        v.push(c);
        proof {
            assert(v@ =~= s@.take(it.index() + 1));
        }
    }
    proof {
        assert(s@.take(s@.len() as int) =~= s@);
    }
    v
}

fn matches_at(s: &Vec<char>, pat: &Vec<char>, i: usize) -> (r: bool)
    requires
        i + pat@.len() <= s@.len(),
    ensures
        r == occurs_at(s@, pat@, i as int),
{
    let m = pat.len();
    let n = s.len();
    let mut k: usize = 0;
    while k < m
        invariant
            m == pat@.len(),
            n == s@.len(),
            i + m <= n,
            k <= m,
            forall|t: int| 0 <= t < k ==> s@[i + t] == pat@[t],
        decreases m - k,
    {
        if s[i + k] != pat[k] {
            proof {
                assert(s@.subrange(i as int, i + m)[k as int] != pat@[k as int]);
            }
            return false;
        }
        k = k + 1;
    }
    proof {
        assert(s@.subrange(i as int, i + m) =~= pat@);
    }
    true
}

/// Whether `pat` occurs in `s`.
pub fn text_contains(s: &str, pat: &str) -> (r: bool)
    ensures
        r == contains_text(s@, pat@),
{
    let sv = chars_of(s);
    let pv = chars_of(pat);
    let n = sv.len();
    let m = pv.len();
    if m > n {
        proof {
            assert forall|i: int| !occurs_at(s@, pat@, i) by {}
        }
        return false;
    }
    if m == 0 {
        proof {
            assert(s@.subrange(0, 0) =~= pat@);
            assert(occurs_at(s@, pat@, 0));
        }
        return true;
    }
    let mut i: usize = 0;
    while i <= n - m
        invariant
            n == sv@.len(),
            m == pv@.len(),
            1 <= m <= n,
            sv@ == s@,
            pv@ == pat@,
            i <= n - m + 1,
            forall|j: int| 0 <= j < i ==> !occurs_at(s@, pat@, j),
        decreases n - m + 1 - i,
    {
        if matches_at(&sv, &pv, i) {
            return true;
        }
        i = i + 1;
    }
    proof {
        assert forall|j: int| !occurs_at(s@, pat@, j) by {
            if 0 <= j < i {
            }
        }
    }
    false
}

} // verus!
