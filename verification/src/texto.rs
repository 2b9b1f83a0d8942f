use vstd::prelude::*;

verus! {

/// An ASCII decimal digit, `'0'` to `'9'`: what `char::is_ascii_digit` accepts.
pub open spec fn eh_digito(c: char) -> bool {
    '0' <= c && c <= '9'
}

/// A character with the Unicode `White_Space` property: what `char::is_whitespace`
/// accepts, and so what `str::trim` removes from either end of a text.
pub open spec fn eh_espaco(c: char) -> bool {
    ||| ('\u{9}' <= c && c <= '\u{d}')
    ||| c == ' '
    ||| c == '\u{85}'
    ||| c == '\u{a0}'
    ||| c == '\u{1680}'
    ||| ('\u{2000}' <= c && c <= '\u{200a}')
    ||| c == '\u{2028}'
    ||| c == '\u{2029}'
    ||| c == '\u{202f}'
    ||| c == '\u{205f}'
    ||| c == '\u{3000}'
}

/// Every character of `s` at a position in `de..ate` is a digit.
pub open spec fn so_digitos(s: Seq<char>, de: int, ate: int) -> bool {
    forall|i: int| de <= i < ate ==> #[trigger] eh_digito(s[i])
}

/// `s` holds nothing but white space: trimming it leaves the empty text.
pub open spec fn em_branco(s: Seq<char>) -> bool {
    forall|i: int| 0 <= i < s.len() ==> #[trigger] eh_espaco(s[i])
}

/// `t` occurs in `s` as a block of consecutive characters.
pub open spec fn contem(s: Seq<char>, t: Seq<char>) -> bool {
    exists|k: int| 0 <= k && k + t.len() <= s.len() && #[trigger] s.subrange(k, k + t.len()) == t
}

/// A text occurs in any text that has it between two others.
pub proof fn lema_contem_meio(x: Seq<char>, t: Seq<char>, y: Seq<char>)
    ensures
        contem(x + t + y, t),
{
    assert((x + t + y).subrange(x.len() as int, (x.len() + t.len()) as int) =~= t);
}

/// `p` is how `s` begins.
pub open spec fn comeca_com(s: Seq<char>, p: Seq<char>) -> bool {
    p.len() <= s.len() && s.subrange(0, p.len() as int) == p
}

/// `p` is how `s` ends.
pub open spec fn termina_com(s: Seq<char>, p: Seq<char>) -> bool {
    p.len() <= s.len() && s.subrange(s.len() - p.len(), s.len() as int) == p
}

/// A text occurs in itself.
pub proof fn lema_contem_a_si(t: Seq<char>)
    ensures
        contem(t, t),
{
    let k: int = 0;
    assert(t.subrange(k, k + t.len()) =~= t);
}

/// What occurs in a text occurs in it with more after it.
pub proof fn lema_contem_mais_depois(s: Seq<char>, t: Seq<char>, y: Seq<char>)
    requires
        contem(s, t),
    ensures
        contem(s + y, t),
{
    let k = choose|k: int| 0 <= k && k + t.len() <= s.len() && #[trigger] s.subrange(k, k + t.len()) == t;
    assert((s + y).subrange(k, k + t.len()) =~= s.subrange(k, k + t.len()));
}

/// What occurs in a text occurs in it with more before it.
pub proof fn lema_contem_mais_antes(x: Seq<char>, s: Seq<char>, t: Seq<char>)
    requires
        contem(s, t),
    ensures
        contem(x + s, t),
{
    let k = choose|k: int| 0 <= k && k + t.len() <= s.len() && #[trigger] s.subrange(k, k + t.len()) == t;
    assert((x + s).subrange(x.len() + k, x.len() + k + t.len()) =~= s.subrange(k, k + t.len()));
}

/// A text keeps its beginning when more is put after it.
pub proof fn lema_comeca_com_mais_depois(s: Seq<char>, p: Seq<char>, y: Seq<char>)
    requires
        comeca_com(s, p),
    ensures
        comeca_com(s + y, p),
{
    assert((s + y).subrange(0, p.len() as int) =~= s.subrange(0, p.len() as int));
}

/// A text ends with what was put last.
pub proof fn lema_termina_com_ultimo(x: Seq<char>, p: Seq<char>)
    ensures
        termina_com(x + p, p),
{
    assert((x + p).subrange((x + p).len() - p.len(), (x + p).len() as int) =~= p);
}

pub fn digito(c: char) -> (r: bool)
    ensures
        r == eh_digito(c),
{
    '0' <= c && c <= '9'
}

pub fn espaco(c: char) -> (r: bool)
    ensures
        r == eh_espaco(c),
{
    ('\u{9}' <= c && c <= '\u{d}') || c == ' ' || c == '\u{85}' || c == '\u{a0}' || c == '\u{1680}'
        || ('\u{2000}' <= c && c <= '\u{200a}') || c == '\u{2028}' || c == '\u{2029}' || c
        == '\u{202f}' || c == '\u{205f}' || c == '\u{3000}'
}

/// Whether every character of `s` from position `de` on is a digit.
pub fn digitos_desde(s: &str, de: usize) -> (r: bool)
    requires
        de <= s@.len(),
    ensures
        r == so_digitos(s@, de as int, s@.len() as int),
{
    let n = s.unicode_len();
    let mut i = de;
    while i < n
        invariant
            de <= i <= n,
            n == s@.len(),
            so_digitos(s@, de as int, i as int),
        decreases n - i,
    {
        if !digito(s.get_char(i)) {
            return false;
        }
        i = i + 1;
    }
    true
}

/// Whether `s` is empty once trimmed, as `s.trim().is_empty()` tells.
pub fn so_espacos(s: &str) -> (r: bool)
    ensures
        r == em_branco(s@),
{
    let n = s.unicode_len();
    let mut i: usize = 0;
    while i < n
        invariant
            i <= n,
            n == s@.len(),
            forall|k: int| 0 <= k < i ==> #[trigger] eh_espaco(s@[k]),
        decreases n - i,
    {
        if !espaco(s.get_char(i)) {
            return false;
        }
        i = i + 1;
    }
    true
}

/// Whether the two texts hold the same characters, as `a == b` tells.
pub fn textos_iguais(a: &str, b: &str) -> (r: bool)
    ensures
        r == (a@ == b@),
{
    let n = a.unicode_len();
    if n != b.unicode_len() {
        return false;
    }
    let mut i: usize = 0;
    while i < n
        invariant
            i <= n,
            n == a@.len(),
            n == b@.len(),
            forall|k: int| 0 <= k < i ==> a@[k] == b@[k],
        decreases n - i,
    {
        if a.get_char(i) != b.get_char(i) {
            return false;
        }
        i = i + 1;
    }
    assert(a@ =~= b@);
    true
}

/// The text `antes`, then `meio`, then `depois`.
pub fn juntar(antes: &str, meio: &str, depois: &str) -> (r: String)
    ensures
        r@ == antes@ + meio@ + depois@,
{
    let mut r = String::from_str(antes);
    r.append(meio);
    r.append(depois);
    r
}

} // verus!
