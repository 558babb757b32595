use vstd::prelude::*;

verus! {

/// Whether `p` is a prefix of `s`, counted in characters.
pub open spec fn is_prefix(p: Seq<char>, s: Seq<char>) -> bool {
    p.len() <= s.len() && s.subrange(0, p.len() as int) == p
}

/// Tells whether `s` starts with `p`.
pub fn has_prefix(s: &str, p: &str) -> (r: bool)
    ensures
        r == is_prefix(p@, s@),
{
    let n = p.unicode_len();
    if s.unicode_len() < n {
        return false;
    }
    let mut i: usize = 0;
    while i < n
        invariant
            n == p@.len(),
            n <= s@.len(),
            i <= n,
            forall|j: int| 0 <= j < i ==> s@[j] == p@[j],
        decreases n - i,
    {
        if s.get_char(i) != p.get_char(i) {
            return false;
        }
        i = i + 1;
    }
    assert(s@.subrange(0, n as int) =~= p@);
    true
}

/// Tells whether `a` and `b` hold the same characters.
pub fn same_text(a: &str, b: &str) -> (r: bool)
    ensures
        r == (a@ == b@),
{
    if a.unicode_len() != b.unicode_len() {
        return false;
    }
    let r = has_prefix(a, b);
    assert(a@.subrange(0, b@.len() as int) =~= a@);
    r
}

/// Characters with the Unicode property White_Space.
pub open spec fn is_white_space(c: char) -> bool {
    let u = c as u32;
    ||| 0x09 <= u <= 0x0D
    ||| u == 0x20
    ||| u == 0x85
    ||| u == 0xA0
    ||| u == 0x1680
    ||| 0x2000 <= u <= 0x200A
    ||| u == 0x2028
    ||| u == 0x2029
    ||| u == 0x202F
    ||| u == 0x205F
    ||| u == 0x3000
}

/// The words of `s` from position `i` on, where the word under way began at
/// `start`: the maximal runs of characters that are not white space.
pub open spec fn words_from(s: Seq<char>, start: int, i: int) -> Seq<Seq<char>>
    decreases s.len() - i,
{
    if i >= s.len() {
        if start < i {
            seq![s.subrange(start, i)]
        } else {
            Seq::empty()
        }
    } else if is_white_space(s[i]) {
        let before = if start < i {
            seq![s.subrange(start, i)]
        } else {
            Seq::empty()
        };
        before + words_from(s, i + 1, i + 1)
    } else {
        words_from(s, start, i + 1)
    }
}

/// The words of `s`, in order: the non-empty pieces between white space.
pub open spec fn words(s: Seq<char>) -> Seq<Seq<char>> {
    words_from(s, 0, 0)
}

/// Whether `c` has the Unicode property White_Space.
pub fn is_unicode_white_space(c: char) -> (r: bool)
    ensures
        r == is_white_space(c),
{
    let u = c as u32;
    (0x09 <= u && u <= 0x0D) || u == 0x20 || u == 0x85 || u == 0xA0 || u == 0x1680 || (0x2000 <= u
        && u <= 0x200A) || u == 0x2028 || u == 0x2029 || u == 0x202F || u == 0x205F || u == 0x3000
}

/// Splits `s` at white space, leaving out empty pieces.
pub fn split_whitespace(s: &str) -> (r: Vec<String>)
    ensures
        r@.map_values(|w: String| w@) == words(s@),
{
    let n = s.unicode_len();
    let mut out: Vec<String> = Vec::new();
    let mut start: usize = 0;
    let mut i: usize = 0;
    assert(out@.map_values(|w: String| w@) =~= Seq::<Seq<char>>::empty());
    while i < n
        invariant
            n == s@.len(),
            start <= i <= n,
            out@.map_values(|w: String| w@) + words_from(s@, start as int, i as int) == words(s@),
        decreases n - i,
    {
        let ghost prev = out@.map_values(|w: String| w@);
        if is_unicode_white_space(s.get_char(i)) {
            if start < i {
                let w = String::from_str(s.substring_char(start, i));
                out.push(w);
                assert(out@.map_values(|w: String| w@) =~= prev.push(s@.subrange(
                    start as int,
                    i as int,
                )));
                assert(prev + words_from(s@, start as int, i as int) =~= out@.map_values(
                    |w: String| w@,
                ) + words_from(s@, i + 1, i + 1));
            } else {
                assert(prev + words_from(s@, start as int, i as int) =~= prev + words_from(
                    s@,
                    i + 1,
                    i + 1,
                ));
            }
            i = i + 1;
            start = i;
        } else {
            i = i + 1;
        }
    }
    let ghost prev = out@.map_values(|w: String| w@);
    if start < n {
        let w = String::from_str(s.substring_char(start, n));
        out.push(w);
        assert(out@.map_values(|w: String| w@) =~= prev.push(s@.subrange(start as int, n as int)));
        assert(prev + words_from(s@, start as int, n as int) =~= out@.map_values(|w: String| w@));
    } else {
        assert(prev + words_from(s@, start as int, n as int) =~= prev);
    }
    out
}

} // verus!
