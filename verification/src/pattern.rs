//! Name matching as the price lookup performs it: the looked-up name is a
//! pattern in which `%` stands for any run of characters and `_` for exactly
//! one, and ASCII letters match without regard to case.

use vstd::prelude::*;

verus! {

/// The ASCII lower-case form of `c`; every other character is itself.
pub open spec fn fold_case(c: char) -> char {
    if 'A' <= c && c <= 'Z' {
        ((c as u8) + 32) as char
    } else {
        c
    }
}

/// Whether `pattern[i..]` matches `text[j..]`.
pub open spec fn like_from(pattern: Seq<char>, i: int, text: Seq<char>, j: int) -> bool
    decreases pattern.len() - i, text.len() - j,
{
    if i < 0 || j < 0 || i > pattern.len() || j > text.len() {
        false
    } else if i == pattern.len() {
        j == text.len()
    } else if pattern[i] == '%' {
        like_from(pattern, i + 1, text, j) || (j < text.len() && like_from(pattern, i, text, j + 1))
    } else if pattern[i] == '_' {
        j < text.len() && like_from(pattern, i + 1, text, j + 1)
    } else {
        j < text.len() && fold_case(pattern[i]) == fold_case(text[j]) && like_from(
            pattern,
            i + 1,
            text,
            j + 1,
        )
    }
}

/// Whether `text` as a whole matches `pattern`.
pub open spec fn like(pattern: Seq<char>, text: Seq<char>) -> bool {
    like_from(pattern, 0, text, 0)
}

/// The ASCII lower-case form of `c`.
pub fn fold(c: char) -> (r: char)
    ensures
        r == fold_case(c),
{
    if 'A' <= c && c <= 'Z' {
        ((c as u8) + 32) as char
    } else {
        c
    }
}

/// The characters of `s`, in order.
pub fn chars_of(s: &str) -> (v: Vec<char>)
    ensures
        v@ == s@,
{
    let n: usize = s.unicode_len();
    let mut v: Vec<char> = Vec::new();
    let mut k: usize = 0;
    while k < n
        invariant
            n == s@.len(),
            k <= n,
            v@ == s@.take(k as int),
        decreases n - k,
    {
        v.push(s.get_char(k));
        k = k + 1;
    }
    v
}

/// Whether `text` matches `pattern`, both given as characters.
pub fn like_chars(pattern: &Vec<char>, text: &Vec<char>) -> (r: bool)
    ensures
        r == like(pattern@, text@),
{
    let m: usize = pattern.len();
    let n: usize = text.len();
    // row[j] tells whether pattern[i..] matches text[j..]; tail is the same for j == n.
    let mut row: Vec<bool> = Vec::new();
    let mut fill: usize = 0;
    while fill < n
        invariant
            fill <= n,
            n == text@.len(),
            m == pattern@.len(),
            row@.len() == fill,
            forall|k: int| 0 <= k < fill ==> row@[k] == like_from(pattern@, m as int, text@, k),
        decreases n - fill,
    {
        row.push(false);
        fill = fill + 1;
    }
    let mut tail: bool = true;
    let mut i: usize = m;
    while i > 0
        invariant
            i <= m,
            n == text@.len(),
            m == pattern@.len(),
            row@.len() == n,
            forall|k: int| 0 <= k < n ==> row@[k] == like_from(pattern@, i as int, text@, k),
            tail == like_from(pattern@, i as int, text@, n as int),
        decreases i,
    {
        i = i - 1;
        let c: char = pattern[i];
        let new_tail: bool = c == '%' && tail;
        let mut below: bool = tail;
        let mut beside: bool = new_tail;
        let mut j: usize = n;
        while j > 0
            invariant
                j <= n,
                i < m,
                n == text@.len(),
                m == pattern@.len(),
                c == pattern@[i as int],
                row@.len() == n,
                forall|k: int| 0 <= k < j ==> row@[k] == like_from(pattern@, i + 1, text@, k),
                forall|k: int| j <= k < n ==> row@[k] == like_from(pattern@, i as int, text@, k),
                below == like_from(pattern@, i + 1, text@, j as int),
                beside == like_from(pattern@, i as int, text@, j as int),
            decreases j,
        {
            j = j - 1;
            let here: bool = row[j];
            let cell: bool = if c == '%' {
                here || beside
            } else if c == '_' {
                below
            } else {
                fold(c) == fold(text[j]) && below
            };
            row.set(j, cell);
            below = here;
            beside = cell;
        }
        tail = new_tail;
    }
    if n == 0 {
        tail
    } else {
        row[0]
    }
}

/// Whether `text` matches `pattern`.
pub fn like_match(pattern: &str, text: &str) -> (r: bool)
    ensures
        r == like(pattern@, text@),
{
    let p: Vec<char> = chars_of(pattern);
    let t: Vec<char> = chars_of(text);
    like_chars(&p, &t)
}

} // verus!
