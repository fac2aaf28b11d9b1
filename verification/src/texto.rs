//! Verified helpers over strings: equality, trimming, and locating the last
//! occurrence of a character. They carry the string reasoning that the token
//! grammar and the ledger keys need.

use vstd::prelude::*;
use vstd::string::StrSliceExecFns;

verus! {

/// True when the two strings hold the same characters.
pub fn igual_str(a: &str, b: &str) -> (r: bool)
    ensures
        r == (a@ == b@),
{
    let na = a.unicode_len();
    let nb = b.unicode_len();
    if na != nb {
        proof {
            if a@ == b@ {
                assert(a@.len() == b@.len());
            }
        }
        return false;
    }
    let mut i: usize = 0;
    while i < na
        invariant
            na == a@.len(),
            nb == b@.len(),
            na == nb,
            i <= na,
            forall|j: int| 0 <= j < i ==> a@[j] == b@[j],
        decreases na - i,
    {
        if a.get_char(i) != b.get_char(i) {
            proof {
                assert(a@[i as int] != b@[i as int]);
            }
            return false;
        }
        i += 1;
    }
    proof {
        assert(a@ =~= b@);
    }
    true
}

/// An ASCII whitespace character, as it occurs around a header value.
pub open spec fn es_espacio(c: char) -> bool {
    c == ' ' || c == '\t' || c == '\r' || c == '\n'
}

/// The characters that remain once leading and trailing whitespace is gone.
pub open spec fn recortado(s: Seq<char>) -> Seq<char>
    decreases s.len(),
{
    if s.len() == 0 {
        s
    } else if es_espacio(s[0]) {
        recortado(s.drop_first())
    } else if es_espacio(s[s.len() - 1]) {
        recortado(s.drop_last())
    } else {
        s
    }
}

proof fn lema_recortado_limites(s: Seq<char>, i: int, j: int)
    requires
        0 <= i <= j <= s.len(),
        forall|k: int| 0 <= k < i ==> es_espacio(s[k]),
        forall|k: int| j <= k < s.len() ==> es_espacio(s[k]),
        i == j || (!es_espacio(s[i]) && !es_espacio(s[j - 1])),
    ensures
        recortado(s) == s.subrange(i, j),
    decreases s.len(),
{
    if s.len() == 0 {
        assert(s.subrange(i, j) =~= s);
    } else if es_espacio(s[0]) {
        let t = s.drop_first();
        assert(t =~= s.subrange(1, s.len() as int));
        if i == 0 {
            // s[0] is whitespace, so i == j must hold: the trimmed range is empty.
            assert(i == j);
            lema_recortado_limites(t, 0, 0);
            assert(s.subrange(0, 0) =~= t.subrange(0, 0));
        } else {
            lema_recortado_limites(t, i - 1, j - 1);
            assert(s.subrange(i, j) =~= t.subrange(i - 1, j - 1));
        }
    } else if es_espacio(s[s.len() - 1]) {
        let t = s.drop_last();
        assert(t =~= s.subrange(0, s.len() - 1));
        // The range cannot reach the last character, which is whitespace.
        assert(j < s.len());
        lema_recortado_limites(t, i, j);
        assert(s.subrange(i, j) =~= t.subrange(i, j));
    } else {
        assert(i == 0);
        assert(j == s.len());
        assert(s.subrange(i, j) =~= s);
    }
}

fn es_espacio_exec(c: char) -> (r: bool)
    ensures
        r == es_espacio(c),
{
    c == ' ' || c == '\t' || c == '\r' || c == '\n'
}

/// Drops leading and trailing ASCII whitespace.
pub fn recortar(s: &str) -> (r: &str)
    ensures
        r@ == recortado(s@),
{
    let n = s.unicode_len();
    let mut i: usize = 0;
    let mut j: usize = n;
    while i < j && es_espacio_exec(s.get_char(i))
        invariant
            n == s@.len(),
            i <= j <= n,
            forall|k: int| 0 <= k < i ==> es_espacio(s@[k]),
            j == n,
        decreases j - i,
    {
        i += 1;
    }
    while j > i && es_espacio_exec(s.get_char(j - 1))
        invariant
            n == s@.len(),
            i <= j <= n,
            forall|k: int| 0 <= k < i ==> es_espacio(s@[k]),
            forall|k: int| j <= k < n ==> es_espacio(s@[k]),
            i == j || !es_espacio(s@[i as int]),
        decreases j - i,
    {
        j -= 1;
    }
    proof {
        lema_recortado_limites(s@, i as int, j as int);
    }
    s.substring_char(i, j)
}

/// Index of the last occurrence of `c`, or -1 when `c` does not occur.
pub open spec fn pos_ultimo(s: Seq<char>, c: char) -> int
    decreases s.len(),
{
    if s.len() == 0 {
        -1
    } else if s[s.len() - 1] == c {
        s.len() - 1
    } else {
        pos_ultimo(s.drop_last(), c)
    }
}

proof fn lema_pos_ultimo_prefijo(s: Seq<char>, c: char, j: int)
    requires
        0 <= j <= s.len(),
        forall|k: int| j <= k < s.len() ==> s[k] != c,
    ensures
        pos_ultimo(s, c) == pos_ultimo(s.subrange(0, j), c),
    decreases s.len() - j,
{
    if j == s.len() {
        assert(s.subrange(0, j) =~= s);
    } else {
        let t = s.drop_last();
        assert(t =~= s.subrange(0, s.len() - 1));
        lema_pos_ultimo_prefijo(t, c, j);
        assert(t.subrange(0, j) =~= s.subrange(0, j));
    }
}

/// Finds the last occurrence of `c` in `s`.
pub fn buscar_ultimo(s: &str, c: char) -> (r: Option<usize>)
    ensures
        match r {
            Some(i) => i < s@.len() && pos_ultimo(s@, c) == i,
            None => pos_ultimo(s@, c) == -1,
        },
{
    let n = s.unicode_len();
    let mut j: usize = n;
    while j > 0
        invariant
            n == s@.len(),
            j <= n,
            forall|k: int| j <= k < n ==> s@[k] != c,
        decreases j,
    {
        j -= 1;
        if s.get_char(j) == c {
            proof {
                lema_pos_ultimo_prefijo(s@, c, j + 1);
                let p = s@.subrange(0, j + 1);
                assert(p[p.len() - 1] == c);
            }
            return Some(j);
        }
    }
    proof {
        lema_pos_ultimo_prefijo(s@, c, 0);
        assert(s@.subrange(0, 0) =~= Seq::<char>::empty());
    }
    None
}

} // verus!
