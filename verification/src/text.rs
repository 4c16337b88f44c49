//! Character-level string operations used by the name tables.

use vstd::prelude::*;
use vstd::string::*;
use vstd::utf8::*;

verus! {

/// `p` occurs in `s` as a contiguous run of characters.
pub open spec fn has_substring(s: Seq<char>, p: Seq<char>) -> bool {
    exists|i: int| 0 <= i <= s.len() - p.len() && #[trigger] s.subrange(i, i + p.len()) == p
}

/// Whether the two strings hold the same characters.
pub fn str_eq(a: &str, b: &str) -> (r: bool)
    ensures
        r == (a@ == b@),
{
    let ab = a.as_bytes();
    let bb = b.as_bytes();
    proof {
        encode_utf8_decode_utf8(a@);
        encode_utf8_decode_utf8(b@);
    }
    if ab.len() != bb.len() {
        return false;
    }
    let n = ab.len();
    let mut i: usize = 0;
    while i < n
        invariant
            n == ab@.len(),
            n == bb@.len(),
            ab@ == encode_utf8(a@),
            bb@ == encode_utf8(b@),
            i <= n,
            forall|j: int| 0 <= j < i ==> ab@[j] == bb@[j],
        decreases n - i,
    {
        if ab[i] != bb[i] {
            return false;
        }
        i += 1;
    }
    assert(ab@ =~= bb@);
    true
}

} // verus!

verus! {

/// ASCII lower-casing of one character; other characters are kept.
pub open spec fn ascii_lower_char(c: char) -> char {
    if 'A' <= c && c <= 'Z' {
        ((c as u32) + 32) as char
    } else {
        c
    }
}

/// ASCII lower-casing of a character sequence.
pub open spec fn ascii_lowercase(s: Seq<char>) -> Seq<char> {
    s.map_values(|c: char| ascii_lower_char(c))
}

fn lower_char(c: char) -> (r: char)
    ensures
        r == ascii_lower_char(c),
{
    if 'A' <= c && c <= 'Z' {
        let b: u8 = c as u8;
        let r = (b + 32) as char;
        assert(r == ((c as u32) + 32) as char);
        r
    } else {
        c
    }
}

} // verus!

verus! {

/// Whether the ASCII lower-casing of `s` equals `t`.
pub fn ascii_lower_eq(s: &str, t: &str) -> (r: bool)
    ensures
        r == (ascii_lowercase(s@) == t@),
{
    let n = s.unicode_len();
    if n != t.unicode_len() {
        assert(ascii_lowercase(s@).len() != t@.len());
        return false;
    }
    let mut i: usize = 0;
    while i < n
        invariant
            n == s@.len(),
            n == t@.len(),
            i <= n,
            forall|j: int| 0 <= j < i ==> ascii_lower_char(s@[j]) == t@[j],
        decreases n - i,
    {
        if lower_char(s.get_char(i)) != t.get_char(i) {
            assert(ascii_lowercase(s@)[i as int] != t@[i as int]);
            return false;
        }
        i += 1;
    }
    assert(ascii_lowercase(s@) =~= t@);
    true
}

/// Whether `p` is a prefix of `s`.
pub fn starts_with(s: &str, p: &str) -> (r: bool)
    ensures
        r == p@.is_prefix_of(s@),
{
    let n = s.unicode_len();
    let m = p.unicode_len();
    if m > n {
        return false;
    }
    let mut i: usize = 0;
    while i < m
        invariant
            n == s@.len(),
            m == p@.len(),
            m <= n,
            i <= m,
            forall|j: int| 0 <= j < i ==> s@[j] == p@[j],
        decreases m - i,
    {
        if s.get_char(i) != p.get_char(i) {
            assert(s@.subrange(0, m as int)[i as int] != p@[i as int]);
            return false;
        }
        i += 1;
    }
    assert(p@ =~= s@.subrange(0, m as int));
    true
}

/// Whether `p` occurs in `s` starting at character position `k`.
fn matches_at(s: &str, p: &str, k: usize) -> (r: bool)
    requires
        k + p@.len() <= s@.len(),
    ensures
        r == (s@.subrange(k as int, k + p@.len()) == p@),
{
    let n = s.unicode_len();
    let m = p.unicode_len();
    let mut i: usize = 0;
    while i < m
        invariant
            m == p@.len(),
            n == s@.len(),
            k + m <= s@.len(),
            i <= m,
            forall|j: int| 0 <= j < i ==> s@[k + j] == p@[j],
        decreases m - i,
    {
        if s.get_char(k + i) != p.get_char(i) {
            assert(s@.subrange(k as int, k + m)[i as int] != p@[i as int]);
            return false;
        }
        i += 1;
    }
    assert(p@ =~= s@.subrange(k as int, k + m));
    true
}

/// Whether `p` is a suffix of `s`.
pub fn ends_with(s: &str, p: &str) -> (r: bool)
    ensures
        r == p@.is_suffix_of(s@),
{
    let n = s.unicode_len();
    let m = p.unicode_len();
    if m > n {
        return false;
    }
    matches_at(s, p, n - m)
}

/// Whether `p` occurs anywhere in `s`.
pub fn contains(s: &str, p: &str) -> (r: bool)
    ensures
        r == has_substring(s@, p@),
{
    let n = s.unicode_len();
    let m = p.unicode_len();
    if m > n {
        return false;
    }
    let limit = n - m;
    let mut k: usize = 0;
    loop
        invariant
            n == s@.len(),
            m == p@.len(),
            limit == n - m,
            k <= limit,
            forall|j: int| 0 <= j < k ==> #[trigger] s@.subrange(j, j + m) != p@,
        decreases limit - k,
    {
        if matches_at(s, p, k) {
            return true;
        }
        if k == limit {
            return false;
        }
        k += 1;
    }
}

/// `s` with the prefix `p` removed, when `s` starts with `p`.
pub fn strip_prefix<'a>(s: &'a str, p: &str) -> (r: Option<&'a str>)
    ensures
        r.is_some() == p@.is_prefix_of(s@),
        r matches Some(rest) ==> rest@ == s@.subrange(p@.len() as int, s@.len() as int),
{
    if starts_with(s, p) {
        let n = s.unicode_len();
        let m = p.unicode_len();
        Some(s.substring_char(m, n))
    } else {
        None
    }
}

/// `s` with every `.` replaced by `_`.
pub open spec fn dots_to_underscores_spec(s: Seq<char>) -> Seq<char> {
    s.map_values(|c: char| if c == '.' { '_' } else { c })
}

/// `s` with every `.` replaced by `_`.
pub fn dots_to_underscores(s: &str) -> (r: String)
    ensures
        r@ == dots_to_underscores_spec(s@),
{
    let n = s.unicode_len();
    let mut out = String::new();
    let mut i: usize = 0;
    proof {
        reveal_strlit("_");
    }
    while i < n
        invariant
            n == s@.len(),
            i <= n,
            out@ == dots_to_underscores_spec(s@.subrange(0, i as int)),
            "_"@ == seq!['_'],
        decreases n - i,
    {
        let c = s.get_char(i);
        if c == '.' {
            out.append("_");
        } else {
            out.append(s.substring_char(i, i + 1));
        }
        assert(dots_to_underscores_spec(s@.subrange(0, i + 1)) =~= dots_to_underscores_spec(
            s@.subrange(0, i as int),
        ).push(if c == '.' { '_' } else { c }));
        i += 1;
    }
    assert(s@.subrange(0, n as int) =~= s@);
    out
}

} // verus!

verus! {

/// ASCII upper-casing of one character; other characters are kept.
pub open spec fn ascii_upper_char(c: char) -> char {
    if 'a' <= c && c <= 'z' {
        ((c as u32) - 32) as char
    } else {
        c
    }
}

/// `s` with its first character upper-cased (ASCII).
pub open spec fn capitalized(s: Seq<char>) -> Seq<char> {
    if s.len() == 0 {
        s
    } else {
        seq![ascii_upper_char(s[0])] + s.drop_first()
    }
}

/// The capital letter of a lower-case ASCII letter, at its place in the alphabet.
proof fn lemma_capital_letter(c: char)
    requires
        'a' <= c <= 'z',
    ensures
        "ABCDEFGHIJKLMNOPQRSTUVWXYZ"@.len() == 26,
        "ABCDEFGHIJKLMNOPQRSTUVWXYZ"@[(c as u32 - 97) as int] == ascii_upper_char(c),
{
    reveal_strlit("ABCDEFGHIJKLMNOPQRSTUVWXYZ");
    let t = "ABCDEFGHIJKLMNOPQRSTUVWXYZ"@;
    if c == 'a' {
        char_u32_cast('A', 65);
        assert(t[0] == 'A');
    } else if c == 'b' {
        char_u32_cast('B', 66);
        assert(t[1] == 'B');
    } else if c == 'c' {
        char_u32_cast('C', 67);
        assert(t[2] == 'C');
    } else if c == 'd' {
        char_u32_cast('D', 68);
        assert(t[3] == 'D');
    } else if c == 'e' {
        char_u32_cast('E', 69);
        assert(t[4] == 'E');
    } else if c == 'f' {
        char_u32_cast('F', 70);
        assert(t[5] == 'F');
    } else if c == 'g' {
        char_u32_cast('G', 71);
        assert(t[6] == 'G');
    } else if c == 'h' {
        char_u32_cast('H', 72);
        assert(t[7] == 'H');
    } else if c == 'i' {
        char_u32_cast('I', 73);
        assert(t[8] == 'I');
    } else if c == 'j' {
        char_u32_cast('J', 74);
        assert(t[9] == 'J');
    } else if c == 'k' {
        char_u32_cast('K', 75);
        assert(t[10] == 'K');
    } else if c == 'l' {
        char_u32_cast('L', 76);
        assert(t[11] == 'L');
    } else if c == 'm' {
        char_u32_cast('M', 77);
        assert(t[12] == 'M');
    } else if c == 'n' {
        char_u32_cast('N', 78);
        assert(t[13] == 'N');
    } else if c == 'o' {
        char_u32_cast('O', 79);
        assert(t[14] == 'O');
    } else if c == 'p' {
        char_u32_cast('P', 80);
        assert(t[15] == 'P');
    } else if c == 'q' {
        char_u32_cast('Q', 81);
        assert(t[16] == 'Q');
    } else if c == 'r' {
        char_u32_cast('R', 82);
        assert(t[17] == 'R');
    } else if c == 's' {
        char_u32_cast('S', 83);
        assert(t[18] == 'S');
    } else if c == 't' {
        char_u32_cast('T', 84);
        assert(t[19] == 'T');
    } else if c == 'u' {
        char_u32_cast('U', 85);
        assert(t[20] == 'U');
    } else if c == 'v' {
        char_u32_cast('V', 86);
        assert(t[21] == 'V');
    } else if c == 'w' {
        char_u32_cast('W', 87);
        assert(t[22] == 'W');
    } else if c == 'x' {
        char_u32_cast('X', 88);
        assert(t[23] == 'X');
    } else if c == 'y' {
        char_u32_cast('Y', 89);
        assert(t[24] == 'Y');
    } else if c == 'z' {
        char_u32_cast('Z', 90);
        assert(t[25] == 'Z');
    }
}

/// `s` with its first character upper-cased (ASCII).
pub fn capitalize(s: &str) -> (r: String)
    ensures
        r@ == capitalized(s@),
{
    let n = s.unicode_len();
    if n == 0 {
        return String::new();
    }
    let c = s.get_char(0);
    let mut out = if 'a' <= c && c <= 'z' {
        let k: usize = (c as u32 - 97) as usize;
        proof {
            lemma_capital_letter(c);
        }
        "ABCDEFGHIJKLMNOPQRSTUVWXYZ".substring_char(k, k + 1).to_owned()
    } else {
        s.substring_char(0, 1).to_owned()
    };
    out.append(s.substring_char(1, n));
    assert(out@ =~= capitalized(s@));
    out
}

} // verus!

verus! {

/// The first `n` characters of `s` are those of `p`.
pub(crate) open spec fn head_matches(s: Seq<char>, p: Seq<char>, n: nat) -> bool
    decreases n,
{
    n == 0 || (head_matches(s, p, (n - 1) as nat) && s[n - 1] == p[n - 1])
}

/// The last `n` characters of `p` end `s` too.
pub(crate) open spec fn tail_matches(s: Seq<char>, p: Seq<char>, n: nat) -> bool
    decreases n,
{
    n == 0 || (tail_matches(s, p, (n - 1) as nat) && s[s.len() - n] == p[p.len() - n])
}

/// A prefix is a prefix character by character.
proof fn lemma_prefix_by_chars(p: Seq<char>, s: Seq<char>, n: nat)
    requires
        n <= p.len() <= s.len(),
    ensures
        head_matches(s, p, n) <==> s.subrange(0, n as int) =~= p.subrange(0, n as int),
    decreases n,
{
    if n > 0 {
        lemma_prefix_by_chars(p, s, (n - 1) as nat);
        if s.subrange(0, n as int) =~= p.subrange(0, n as int) {
            assert(s.subrange(0, n as int)[n - 1] == s[n - 1]);
            assert(s.subrange(0, n - 1) =~= p.subrange(0, n - 1)) by {
                assert forall|m: int| 0 <= m < n - 1 implies #[trigger] s.subrange(0, n - 1)[m] == p.subrange(
                    0,
                    n - 1,
                )[m] by {
                    assert(s.subrange(0, n as int)[m] == p.subrange(0, n as int)[m]);
                }
            }
        }
    }
}

/// A suffix is a suffix character by character.
proof fn lemma_suffix_by_chars(p: Seq<char>, s: Seq<char>, n: nat)
    requires
        n <= p.len() <= s.len(),
    ensures
        tail_matches(s, p, n) <==> s.subrange(s.len() - n, s.len() as int) =~= p.subrange(
            p.len() - n,
            p.len() as int,
        ),
    decreases n,
{
    if n > 0 {
        lemma_suffix_by_chars(p, s, (n - 1) as nat);
        let ls = s.subrange(s.len() - n, s.len() as int);
        let lp = p.subrange(p.len() - n, p.len() as int);
        assert(ls[0] == s[s.len() - n] && lp[0] == p[p.len() - n]);
        assert(ls.drop_first() =~= s.subrange(s.len() - (n - 1), s.len() as int));
        assert(lp.drop_first() =~= p.subrange(p.len() - (n - 1), p.len() as int));
        if ls =~= lp {
            assert(ls.drop_first() =~= lp.drop_first());
        }
        if tail_matches(s, p, n) {
            assert(ls =~= lp) by {
                assert forall|m: int| 0 <= m < n implies #[trigger] ls[m] == lp[m] by {
                    if m > 0 {
                        assert(ls[m] == ls.drop_first()[m - 1]);
                        assert(lp[m] == lp.drop_first()[m - 1]);
                    }
                }
            }
        }
    }
}

/// Whether `p` begins `s`, character by character.
pub(crate) open spec fn begins_with_chars(s: Seq<char>, p: Seq<char>) -> bool {
    p.len() <= s.len() && head_matches(s, p, p.len())
}

/// Whether `p` ends `s`, character by character.
pub(crate) open spec fn ends_with_chars(s: Seq<char>, p: Seq<char>) -> bool {
    p.len() <= s.len() && tail_matches(s, p, p.len())
}

/// [`begins_with_chars`] is `is_prefix_of`.
pub(crate) proof fn lemma_begins_with_chars(p: Seq<char>, s: Seq<char>)
    ensures
        p.is_prefix_of(s) <==> begins_with_chars(s, p),
{
    if p.len() <= s.len() {
        lemma_prefix_by_chars(p, s, p.len());
        assert(p.subrange(0, p.len() as int) =~= p);
    }
}

/// [`ends_with_chars`] is `is_suffix_of`.
pub(crate) proof fn lemma_ends_with_chars(p: Seq<char>, s: Seq<char>)
    ensures
        p.is_suffix_of(s) <==> ends_with_chars(s, p),
{
    if p.len() <= s.len() {
        lemma_suffix_by_chars(p, s, p.len());
        assert(p.subrange(0, p.len() as int) =~= p);
    }
}

} // verus!
