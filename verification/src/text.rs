//! Text primitives of the engine: decimal numerals, address patterns and the
//! splitting of command output. Every function is stated over the characters of
//! its arguments.

use vstd::prelude::*;
use vstd::string::*;

verus! {

/// The character that stands for the digit `d`.
pub open spec fn digit(d: nat) -> char
    recommends
        d < 10,
{
    if d == 0 {
        '0'
    } else if d == 1 {
        '1'
    } else if d == 2 {
        '2'
    } else if d == 3 {
        '3'
    } else if d == 4 {
        '4'
    } else if d == 5 {
        '5'
    } else if d == 6 {
        '6'
    } else if d == 7 {
        '7'
    } else if d == 8 {
        '8'
    } else {
        '9'
    }
}

/// The decimal numeral of `n`, without sign or leading zeros.
pub open spec fn decimal(n: nat) -> Seq<char>
    decreases n,
{
    if n < 10 {
        seq![digit(n)]
    } else {
        decimal(n / 10).push(digit(n % 10))
    }
}

/// The digit that `c` stands for; 0 where it is no digit.
pub open spec fn digit_value(c: char) -> nat {
    if c == '1' {
        1
    } else if c == '2' {
        2
    } else if c == '3' {
        3
    } else if c == '4' {
        4
    } else if c == '5' {
        5
    } else if c == '6' {
        6
    } else if c == '7' {
        7
    } else if c == '8' {
        8
    } else if c == '9' {
        9
    } else {
        0
    }
}

/// The number that the numeral `s` denotes.
pub open spec fn numeral_value(s: Seq<char>) -> nat
    decreases s.len(),
{
    if s.len() == 0 {
        0
    } else {
        numeral_value(s.drop_last()) * 10 + digit_value(s.last())
    }
}

/// Reading a decimal numeral gives back the number it was written from.
pub proof fn decimal_reads_back(n: nat)
    ensures
        numeral_value(decimal(n)) == n,
        decimal(n).len() >= 1,
    decreases n,
{
    if n < 10 {
    } else {
        decimal_reads_back(n / 10);
        assert(decimal(n).drop_last() =~= decimal(n / 10));
    }
}

/// Different numbers have different decimal numerals.
pub proof fn decimal_is_injective(a: nat, b: nat)
    requires
        decimal(a) == decimal(b),
    ensures
        a == b,
{
    decimal_reads_back(a);
    decimal_reads_back(b);
}

fn digit_str(d: u64) -> (s: &'static str)
    requires
        d < 10,
    ensures
        s@ == seq![digit(d as nat)],
{
    proof {
        reveal_strlit("0");
        reveal_strlit("1");
        reveal_strlit("2");
        reveal_strlit("3");
        reveal_strlit("4");
        reveal_strlit("5");
        reveal_strlit("6");
        reveal_strlit("7");
        reveal_strlit("8");
        reveal_strlit("9");
    }
    if d == 0 {
        "0"
    } else if d == 1 {
        "1"
    } else if d == 2 {
        "2"
    } else if d == 3 {
        "3"
    } else if d == 4 {
        "4"
    } else if d == 5 {
        "5"
    } else if d == 6 {
        "6"
    } else if d == 7 {
        "7"
    } else if d == 8 {
        "8"
    } else {
        "9"
    }
}

/// Writes `n` as a decimal numeral.
pub fn decimal_string(n: u64) -> (s: String)
    ensures
        s@ == decimal(n as nat),
    decreases n,
{
    if n < 10 {
        String::from_str(digit_str(n))
    } else {
        let mut s = decimal_string(n / 10);
        s.append(digit_str(n % 10));
        s
    }
}

/// The character that an address pattern holds in place of a host number.
pub const PLACEHOLDER: char = 'x';

/// Whether `c` is the placeholder of address patterns.
pub open spec fn is_placeholder(c: char) -> bool {
    c == PLACEHOLDER
}

/// How many placeholders `pattern` holds.
pub open spec fn placeholders(pattern: Seq<char>) -> nat {
    pattern.filter(|c: char| is_placeholder(c)).len()
}

/// What each character of a pattern becomes when `with` takes the place of
/// the placeholders.
pub open spec fn filling(with: Seq<char>) -> spec_fn(char) -> Seq<char> {
    |c: char|
        if is_placeholder(c) {
            with
        } else {
            seq![c]
        }
}

/// `pattern` with `with` in place of every placeholder.
pub open spec fn substitute(pattern: Seq<char>, with: Seq<char>) -> Seq<char> {
    pattern.flat_map(filling(with))
}

/// `pattern` with the numeral of `host` in place of every placeholder.
pub open spec fn resolved(pattern: Seq<char>, host: nat) -> Seq<char> {
    substitute(pattern, decimal(host))
}

/// The size in bits of the network that `pattern` describes: each placeholder
/// stands for one byte of host address.
pub open spec fn subnet_bits(pattern: Seq<char>) -> int {
    32 - 8 * placeholders(pattern)
}

/// What substitution does to the length: each placeholder gives way to all
/// of `with`, every other character stays.
pub proof fn substitute_len(pattern: Seq<char>, with: Seq<char>)
    ensures
        substitute(pattern, with).len() == pattern.len() - placeholders(pattern) + placeholders(
            pattern,
        ) * with.len(),
    decreases pattern.len(),
{
    let held = |c: char| is_placeholder(c);
    let w = with.len() as int;
    if pattern.len() == 0 {
        reveal(Seq::filter);
        assert(0 * w == 0);
    } else {
        let init = pattern.drop_last();
        let last = pattern.last();
        substitute_len(init, with);
        assert(pattern =~= init.push(last));
        init.lemma_flat_map_push(filling(with), last);
        init.lemma_filter_len_push(held, last);
        let n = placeholders(init) as int;
        assert((n + 1) * w == n * w + w) by (nonlinear_arith);
    }
}

proof fn substitute_separates(pattern: Seq<char>, a: Seq<char>, b: Seq<char>)
    requires
        placeholders(pattern) >= 1,
        a.len() == b.len(),
        substitute(pattern, a) == substitute(pattern, b),
    ensures
        a == b,
    decreases pattern.len(),
{
    let held = |c: char| is_placeholder(c);
    if pattern.len() == 0 {
        reveal(Seq::filter);
    } else {
        let init = pattern.drop_last();
        let last = pattern.last();
        assert(pattern =~= init.push(last));
        init.lemma_flat_map_push(filling(a), last);
        init.lemma_flat_map_push(filling(b), last);
        init.lemma_filter_len_push(held, last);
        substitute_len(init, a);
        substitute_len(init, b);
        let head_a = substitute(init, a);
        let head_b = substitute(init, b);
        if is_placeholder(last) {
            assert(b =~= (head_b + b).skip(head_b.len() as int));
        } else {
            assert(head_a =~= (head_a + seq![last]).take(head_a.len() as int));
            assert(head_b =~= (head_b + seq![last]).take(head_b.len() as int));
            substitute_separates(init, a, b);
        }
    }
}

/// A pattern that holds a placeholder gives different texts for different
/// replacements.
pub proof fn substitute_is_injective(pattern: Seq<char>, a: Seq<char>, b: Seq<char>)
    requires
        placeholders(pattern) >= 1,
        substitute(pattern, a) == substitute(pattern, b),
    ensures
        a == b,
{
    substitute_len(pattern, a);
    substitute_len(pattern, b);
    let n = placeholders(pattern) as int;
    let la = a.len() as int;
    let lb = b.len() as int;
    assert(la == lb) by (nonlinear_arith)
        requires
            n >= 1,
            n * la == n * lb,
    ;
    substitute_separates(pattern, a, b);
}

/// A pattern that holds a placeholder resolves to different addresses for
/// different hosts.
pub proof fn resolved_is_injective(pattern: Seq<char>, a: nat, b: nat)
    requires
        placeholders(pattern) >= 1,
        resolved(pattern, a) == resolved(pattern, b),
    ensures
        a == b,
{
    substitute_is_injective(pattern, decimal(a), decimal(b));
    decimal_is_injective(a, b);
}

/// The most placeholders that a pattern of a 32-bit address can hold.
pub const MAX_PLACEHOLDERS: usize = 4;

/// The size in bits of the network that `pattern` describes.
pub fn subnet_size(pattern: &str) -> (bits: usize)
    requires
        placeholders(pattern@) <= MAX_PLACEHOLDERS,
    ensures
        bits == subnet_bits(pattern@),
{
    32 - 8 * placeholder_count(pattern)
}

/// Counts the placeholders of `pattern`.
pub fn placeholder_count(pattern: &str) -> (n: usize)
    ensures
        n == placeholders(pattern@),
{
    let len: usize = pattern.unicode_len();
    let mut n: usize = 0;
    for c in it: pattern.chars()
        invariant
            it.seq() == pattern@,
            len == pattern@.len(),
            n <= it.index(),
            n == placeholders(pattern@.take(it.index() as int)),
    {
        proof {
            pattern@.lemma_take_succ_push(it.index() as int);
            pattern@.take(it.index() as int).lemma_filter_len_push(|c: char| is_placeholder(c), c);
        }
        if c == PLACEHOLDER {
            n = n + 1;
        }
    }
    proof {
        pattern@.lemma_take_len();
    }
    n
}

/// Puts `with` in place of every placeholder of `pattern`.
pub fn substitute_placeholders(pattern: &str, with: &str) -> (out: String)
    ensures
        out@ == substitute(pattern@, with@),
{
    let len: usize = pattern.unicode_len();
    let mut out = String::new();
    // What lies between `start` and the character at hand holds no placeholder
    // and is not yet in `out`.
    let mut start: usize = 0;
    let mut i: usize = 0;
    for c in it: pattern.chars()
        invariant
            it.seq() == pattern@,
            len == pattern@.len(),
            i == it.index(),
            start <= i,
            out@ + pattern@.subrange(start as int, i as int) == substitute(
                pattern@.take(i as int),
                with@,
            ),
    {
        proof {
            pattern@.lemma_flat_map_take_append(filling(with@), i as int);
        }
        if c == PLACEHOLDER {
            out.append(pattern.substring_char(start, i));
            out.append(with);
            start = i + 1;
        } else {
        }
        i = i + 1;
    }
    out.append(pattern.substring_char(start, len));
    proof {
        pattern@.lemma_take_len();
    }
    out
}

/// Resolves `pattern` for the host numbered `host`.
pub fn resolve(pattern: &str, host: u64) -> (out: String)
    ensures
        out@ == resolved(pattern@, host as nat),
{
    let numeral = decimal_string(host);
    substitute_placeholders(pattern, numeral.as_str())
}

/// The part of `address` before its first `/`; all of it where it holds none.
pub open spec fn host_part(address: Seq<char>) -> Seq<char> {
    match address.index_of_first('/') {
        Some(at) => address.take(at),
        None => address,
    }
}

/// Cuts `address` before its first `/`.
pub fn host_of(address: &str) -> (out: String)
    ensures
        out@ == host_part(address@),
{
    let len: usize = address.unicode_len();
    let mut end: usize = len;
    let mut found = false;
    let mut i: usize = 0;
    for c in it: address.chars()
        invariant
            it.seq() == address@,
            len == address@.len(),
            i == it.index(),
            found ==> end < i && address@[end as int] == '/',
            !found ==> end == len,
            forall|j: int| 0 <= j < i && j < end ==> address@[j] != '/',
    {
        if !found && c == '/' {
            end = i;
            found = true;
        }
        i = i + 1;
    }
    proof {
        address@.index_of_first_ensures('/');
        if found {
        }
    }
    String::from_str(address.substring_char(0, end))
}

/// Whether `c` is white space, as Unicode defines it.
pub open spec fn is_whitespace(c: char) -> bool {
    let code = c as u32;
    ||| 0x09 <= code <= 0x0d
    ||| code == 0x20
    ||| code == 0x85
    ||| code == 0xa0
    ||| code == 0x1680
    ||| 0x2000 <= code <= 0x200a
    ||| code == 0x2028
    ||| code == 0x2029
    ||| code == 0x202f
    ||| code == 0x205f
    ||| code == 0x3000
}

/// Tests whether `c` is white space.
pub fn whitespace(c: char) -> (b: bool)
    ensures
        b == is_whitespace(c),
{
    let code: u32 = c as u32;
    (0x09 <= code && code <= 0x0d) || code == 0x20 || code == 0x85 || code == 0xa0 || code
        == 0x1680 || (0x2000 <= code && code <= 0x200a) || code == 0x2028 || code == 0x2029
        || code == 0x202f || code == 0x205f || code == 0x3000
}

/// `s` without the white space that it begins with.
pub open spec fn trim_start(s: Seq<char>) -> Seq<char>
    decreases s.len(),
{
    if s.len() > 0 && is_whitespace(s.first()) {
        trim_start(s.drop_first())
    } else {
        s
    }
}

/// `s` without the white space that it ends with.
pub open spec fn trim_end(s: Seq<char>) -> Seq<char>
    decreases s.len(),
{
    if s.len() > 0 && is_whitespace(s.last()) {
        trim_end(s.drop_last())
    } else {
        s
    }
}

/// `s` without the white space around it.
pub open spec fn trimmed(s: Seq<char>) -> Seq<char> {
    trim_end(trim_start(s))
}

proof fn trim_start_skips(s: Seq<char>, k: int)
    requires
        0 <= k <= s.len(),
        forall|j: int| 0 <= j < k ==> is_whitespace(s[j]),
        k < s.len() ==> !is_whitespace(s[k]),
    ensures
        trim_start(s) == s.skip(k),
    decreases k,
{
    if k > 0 {
        let rest = s.drop_first();
        assert forall|j: int| 0 <= j < k - 1 implies is_whitespace(rest[j]) by {
            assert(rest[j] == s[j + 1]);
        }
        trim_start_skips(rest, k - 1);
    }
}

proof fn trim_end_takes(s: Seq<char>, k: int)
    requires
        0 <= k <= s.len(),
        forall|j: int| k <= j < s.len() ==> is_whitespace(s[j]),
        k > 0 ==> !is_whitespace(s[k - 1]),
    ensures
        trim_end(s) == s.take(k),
    decreases s.len() - k,
{
    if k < s.len() {
        trim_end_takes(s.drop_last(), k);
    }
}

/// Removes the white space around `s`.
pub fn trim(s: &str) -> (out: String)
    ensures
        out@ == trimmed(s@),
{
    let len: usize = s.unicode_len();
    // `from` is the first character that is no white space, `to` follows the last.
    let mut from: usize = len;
    let mut to: usize = 0;
    let mut i: usize = 0;
    for c in it: s.chars()
        invariant
            it.seq() == s@,
            len == s@.len(),
            i == it.index(),
            to <= i,
            from == len || from < to,
            forall|j: int| 0 <= j < i && j < from ==> is_whitespace(s@[j]),
            from < len ==> !is_whitespace(s@[from as int]),
            forall|j: int| to <= j < i ==> is_whitespace(s@[j]),
            to > 0 ==> !is_whitespace(s@[to - 1]) && from < to,
    {
        if !whitespace(c) {
            if from == len {
                from = i;
            }
            to = i + 1;
        }
        i = i + 1;
    }
    if from == len {
        proof {
            trim_start_skips(s@, len as int);
        }
        String::new()
    } else {
        proof {
            trim_start_skips(s@, from as int);
            trim_end_takes(s@.skip(from as int), to - from);
        }
        String::from_str(s.substring_char(from, to))
    }
}

/// The pieces that white space cuts `s` into: one more than `s` holds white
/// space characters, empty where two of them meet.
pub open spec fn pieces(s: Seq<char>) -> Seq<Seq<char>>
    decreases s.len(),
{
    if s.len() == 0 {
        seq![Seq::empty()]
    } else {
        let before = pieces(s.drop_last());
        if is_whitespace(s.last()) {
            before.push(Seq::empty())
        } else {
            before.drop_last().push(before.last().push(s.last()))
        }
    }
}

/// The words of `s`: its maximal runs of characters that are no white space,
/// in the order in which they stand.
pub open spec fn words(s: Seq<char>) -> Seq<Seq<char>> {
    pieces(s).filter(|piece: Seq<char>| piece.len() > 0)
}

/// Splits `s` into its words.
pub fn split_words(s: &str) -> (out: Vec<String>)
    ensures
        out.deep_view() == words(s@),
{
    let len: usize = s.unicode_len();
    let mut out: Vec<String> = Vec::new();
    let mut start: usize = 0;
    let mut i: usize = 0;
    let ghost filled = |piece: Seq<char>| piece.len() > 0;
    proof {
        reveal(Seq::filter);
    }
    for c in it: s.chars()
        invariant
            it.seq() == s@,
            len == s@.len(),
            i == it.index(),
            start <= i,
            filled == |piece: Seq<char>| piece.len() > 0,
            pieces(s@.take(i as int)).len() >= 1,
            pieces(s@.take(i as int)).last() == s@.subrange(start as int, i as int),
            out.deep_view() == pieces(s@.take(i as int)).drop_last().filter(filled),
    {
        let ghost before = pieces(s@.take(i as int));
        proof {
            s@.lemma_take_succ_push(i as int);
            assert(s@.take(i + 1).drop_last() =~= s@.take(i as int));
        }
        if whitespace(c) {
            proof {
                assert(before.push(Seq::empty()).drop_last() =~= before);
                assert(before =~= before.drop_last().push(before.last()));
                before.drop_last().lemma_filter_push(before.last(), filled);
            }
            if start < i {
                out.push(String::from_str(s.substring_char(start, i)));
            }
            start = i + 1;
        } else {
            proof {
                assert(before.drop_last().push(before.last().push(c)).drop_last()
                    =~= before.drop_last());
            }
        }
        i = i + 1;
    }
    proof {
        s@.lemma_take_len();
        let all = pieces(s@);
        all.drop_last().lemma_filter_push(all.last(), filled);
    }
    if start < len {
        out.push(String::from_str(s.substring_char(start, len)));
    }
    out
}

} // verus!
