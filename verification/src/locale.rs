//! Locale names, such as `en_US.UTF-8`.

use vstd::prelude::*;
use crate::text::chars_of;

verus! {

pub open spec fn lower(c: char) -> bool {
    'a' <= c <= 'z'
}

pub open spec fn upper(c: char) -> bool {
    'A' <= c <= 'Z'
}

pub open spec fn alphanumeric(c: char) -> bool {
    lower(c) || upper(c) || '0' <= c <= '9'
}

/// A two-letter language, such as `en`.
pub open spec fn language(s: Seq<char>) -> bool {
    s.len() == 2 && lower(s[0]) && lower(s[1])
}

/// Nothing, or a two-letter territory behind an underscore, such as `_US`.
pub open spec fn territory_part(s: Seq<char>) -> bool {
    s.len() == 0 || (s.len() == 3 && s[0] == '_' && upper(s[1]) && upper(s[2]))
}

/// Nothing, or letters and digits behind an at sign, such as `@euro`.
pub open spec fn modifier_part(s: Seq<char>) -> bool {
    s.len() == 0 || (s.len() >= 2 && s[0] == '@' && forall|i: int|
        1 <= i < s.len() ==> alphanumeric(#[trigger] s[i]))
}

/// Nothing, or letters, digits and hyphens behind a dot, such as `.UTF-8`.
pub open spec fn codeset_part(s: Seq<char>) -> bool {
    s.len() == 0 || (s.len() >= 2 && s[0] == '.' && forall|i: int|
        1 <= i < s.len() ==> (alphanumeric(#[trigger] s[i]) || s[i] == '-'))
}

/// A language with its optional territory and modifier, in this order.
pub open spec fn language_name(s: Seq<char>) -> bool {
    exists|l: Seq<char>, t: Seq<char>, m: Seq<char>|
        #![trigger language(l), territory_part(t), modifier_part(m)]
        language(l) && territory_part(t) && modifier_part(m) && s == l + t + m
}

/// What stands in a locale before its codeset.
pub open spec fn locale_name(s: Seq<char>) -> bool {
    s == seq!['C'] || s == seq!['P', 'O', 'S', 'I', 'X'] || language_name(s)
}

/// A locale: a name with its optional codeset, and nothing around them.
pub open spec fn locale_value(s: Seq<char>) -> bool {
    exists|n: Seq<char>, c: Seq<char>|
        #![trigger locale_name(n), codeset_part(c)]
        locale_name(n) && codeset_part(c) && s == n + c
}

fn is_lower(c: char) -> (b: bool)
    ensures
        b == lower(c),
{
    'a' <= c && c <= 'z'
}

fn is_upper(c: char) -> (b: bool)
    ensures
        b == upper(c),
{
    'A' <= c && c <= 'Z'
}

fn is_alphanumeric(c: char) -> (b: bool)
    ensures
        b == alphanumeric(c),
{
    is_lower(c) || is_upper(c) || ('0' <= c && c <= '9')
}

/// The first position of `wanted` in `s`, at most `limit`; `limit` where it does not occur before.
fn position(s: &Vec<char>, limit: usize, wanted: char) -> (at: usize)
    requires
        limit <= s@.len(),
    ensures
        at <= limit,
        at < limit ==> s@[at as int] == wanted,
        forall|j: int| 0 <= j < at ==> s@[j] != wanted,
{
    let mut at: usize = 0;
    while at < limit
        invariant_except_break
            forall|j: int| 0 <= j < at ==> s@[j] != wanted,
        invariant
            at <= limit <= s@.len(),
        ensures
            at < limit ==> s@[at as int] == wanted,
            forall|j: int| 0 <= j < at ==> s@[j] != wanted,
        decreases limit - at,
    {
        if s[at] == wanted {
            break;
        }
        at += 1;
    }
    at
}

fn is_codeset_part(s: &Vec<char>, from: usize) -> (b: bool)
    requires
        from <= s@.len(),
    ensures
        b == codeset_part(s@.skip(from as int)),
{
    let n: usize = s.len();
    let ghost part = s@.skip(from as int);
    if from == n {
        return true;
    }
    if n - from < 2 || s[from] != '.' {
        return false;
    }
    let mut i: usize = from + 1;
    while i < n
        invariant
            from < i <= n,
            n == s@.len(),
            part == s@.skip(from as int),
            forall|j: int| 1 <= j < i - from ==> (alphanumeric(#[trigger] part[j]) || part[j] == '-'),
        decreases n - i,
    {
        assert(s@[i as int] == part[i - from]);
        if !is_alphanumeric(s[i]) && s[i] != '-' {
            return false;
        }
        i += 1;
    }
    true
}

fn is_modifier_part(s: &Vec<char>, from: usize, to: usize) -> (b: bool)
    requires
        from <= to <= s@.len(),
    ensures
        b == modifier_part(s@.subrange(from as int, to as int)),
{
    let ghost part = s@.subrange(from as int, to as int);
    if from == to {
        return true;
    }
    if to - from < 2 || s[from] != '@' {
        return false;
    }
    let mut i: usize = from + 1;
    while i < to
        invariant
            from < i <= to <= s@.len(),
            part == s@.subrange(from as int, to as int),
            forall|j: int| 1 <= j < i - from ==> alphanumeric(#[trigger] part[j]),
        decreases to - i,
    {
        assert(s@[i as int] == part[i - from]);
        if !is_alphanumeric(s[i]) {
            return false;
        }
        i += 1;
    }
    true
}

proof fn lemma_no_at_before_modifier(l: Seq<char>, t: Seq<char>)
    requires
        language(l),
        territory_part(t),
    ensures
        !(l + t).contains('@'),
        !(l + t).contains('.'),
        !(l + t).contains('='),
{
    assert forall|j: int| 0 <= j < (l + t).len() implies (l + t)[j] != '@' && (l + t)[j] != '.' && (l
        + t)[j] != '=' by {
        if j >= 2 {
            assert((l + t)[j] == t[j - 2]);
        }
    }
}

proof fn lemma_no_dot_in_name(s: Seq<char>)
    requires
        locale_name(s),
    ensures
        !s.contains('.'),
        !s.contains('='),
{
    if language_name(s) {
        let (l, t, m) = choose|l: Seq<char>, t: Seq<char>, m: Seq<char>|
            #![trigger language(l), territory_part(t), modifier_part(m)]
            language(l) && territory_part(t) && modifier_part(m) && s == l + t + m;
        lemma_no_at_before_modifier(l, t);
        let b = l + t;
        assert forall|j: int| 0 <= j < s.len() implies s[j] != '.' && s[j] != '=' by {
            if j < b.len() {
                assert(b[j] == s[j]);
            } else {
                assert(m[j - b.len()] == s[j]);
            }
        }
    }
}

/// Whether the first `to` characters are a locale name.
fn is_locale_name(s: &Vec<char>, to: usize) -> (b: bool)
    requires
        to <= s@.len(),
    ensures
        b == locale_name(s@.take(to as int)),
{
    let ghost name = s@.take(to as int);
    if to == 1 && s[0] == 'C' {
        assert(name =~= seq!['C']);
        return true;
    }
    if to == 5 && s[0] == 'P' && s[1] == 'O' && s[2] == 'S' && s[3] == 'I' && s[4] == 'X' {
        assert(name =~= seq!['P', 'O', 'S', 'I', 'X']);
        return true;
    }
    let at: usize = position(s, to, '@');
    let ghost base = s@.take(at as int);
    let ghost m = s@.subrange(at as int, to as int);
    proof {
        assert(name =~= base + m);
        if language_name(name) {
            let (l1, t1, m1) = choose|l: Seq<char>, t: Seq<char>, m: Seq<char>|
                #![trigger language(l), territory_part(t), modifier_part(m)]
                language(l) && territory_part(t) && modifier_part(m) && name == l + t + m;
            lemma_no_at_before_modifier(l1, t1);
            let b1 = l1 + t1;
            if at < b1.len() {
                assert(b1[at as int] == name[at as int]);
                if at < to {
                    assert(b1.contains('@'));
                }
            }
            if at > b1.len() {
                assert(name[b1.len() as int] == m1[0]);
                assert(s@[b1.len() as int] == '@');
            }
            assert(at == b1.len());
            assert(base =~= b1);
            assert forall|j: int| 0 <= j < m1.len() implies m[j] == m1[j] by {
                assert(name[at + j] == (b1 + m1)[at + j]);
            }
            assert(m =~= m1);
            assert(l1 =~= base.take(2));
            assert(t1 =~= base.skip(2));
        }
    }
    let base_ok: bool = (at == 2 || at == 5) && is_lower(s[0]) && is_lower(s[1]) && (at == 2 || (s[2]
        == '_' && is_upper(s[3]) && is_upper(s[4])));
    let ok: bool = base_ok && is_modifier_part(s, at, to);
    proof {
        if ok {
            let l = base.take(2);
            let t = base.skip(2);
            assert(name =~= l + t + m);
            assert(language(l) && territory_part(t) && modifier_part(m));
            assert(language_name(name));
        } else if language_name(name) {
            assert(base.skip(2).len() == 0 || base.skip(2).len() == 3);
            assert(base[0] == base.take(2)[0] && base[1] == base.take(2)[1]);
            if base.len() == 5 {
                assert(base.skip(2)[0] == base[2]);
                assert(base.skip(2)[1] == base[3]);
                assert(base.skip(2)[2] == base[4]);
            }
            assert(false);
        }
        if name == seq!['C'] {
            assert(name[0] == 'C');
        }
        if name == seq!['P', 'O', 'S', 'I', 'X'] {
            assert(name[0] == 'P' && name[1] == 'O' && name[2] == 'S' && name[3] == 'I' && name[4]
                == 'X');
        }
    }
    ok
}

/// Whether `value` is a locale, such as `C`, `en_US.UTF-8` or `de@euro`.
pub fn is_locale_value(value: &str) -> (b: bool)
    ensures
        b == locale_value(value@),
{
    let chars = chars_of(value);
    let n: usize = chars.len();
    let dot: usize = position(&chars, n, '.');
    let b: bool = is_locale_name(&chars, dot) && is_codeset_part(&chars, dot);
    proof {
        let s = value@;
        assert(s =~= s.take(dot as int) + s.skip(dot as int));
        if locale_value(s) {
            let (n1, c1) = choose|n: Seq<char>, c: Seq<char>|
                #![trigger locale_name(n), codeset_part(c)]
                locale_name(n) && codeset_part(c) && s == n + c;
            lemma_no_dot_in_name(n1);
            if dot < n1.len() {
                assert(n1[dot as int] == s[dot as int]);
            }
            if dot > n1.len() {
                assert(s[n1.len() as int] == c1[0]);
            }
            assert(n1 =~= s.take(dot as int));
            assert(c1 =~= s.skip(dot as int));
        }
    }
    b
}

/// A locale holds no equals sign, so none can be taken for an assignment.
pub proof fn lemma_locale_value_has_no_equals(s: Seq<char>)
    requires
        locale_value(s),
    ensures
        !s.contains('='),
{
    let (n, c) = choose|n: Seq<char>, c: Seq<char>|
        #![trigger locale_name(n), codeset_part(c)]
        locale_name(n) && codeset_part(c) && s == n + c;
    lemma_no_dot_in_name(n);
    assert forall|j: int| 0 <= j < s.len() implies s[j] != '=' by {
        if j < n.len() {
            assert(n[j] == s[j]);
        } else {
            assert(c[j - n.len()] == s[j]);
        }
    }
}

/// Whether the characters of `s` are laid out as those of a locale whose modifier begins at `b`
/// and whose codeset begins at `m`.
pub open spec fn laid_out(s: Seq<char>, b: int, m: int) -> bool {
    &&& 0 <= b <= m <= s.len()
    &&& {
        ||| b == 1 && m == 1 && s[0] == 'C'
        ||| b == 5 && m == 5 && s[0] == 'P' && s[1] == 'O' && s[2] == 'S' && s[3] == 'I' && s[4]
            == 'X'
        ||| (b == 2 || (b == 5 && s[2] == '_' && 'A' <= s[3] <= 'Z' && 'A' <= s[4] <= 'Z')) && 'a'
            <= s[0] <= 'z' && 'a' <= s[1] <= 'z'
    }
    &&& b < m ==> m - b >= 2 && s[b] == '@'
    &&& forall|i: int|
        b < i < m ==> 'a' <= #[trigger] s[i] <= 'z' || 'A' <= s[i] <= 'Z' || '0' <= s[i] <= '9'
    &&& m < s.len() ==> s.len() - m >= 2 && s[m] == '.'
    &&& forall|i: int|
        m < i < s.len() ==> 'a' <= #[trigger] s[i] <= 'z' || 'A' <= s[i] <= 'Z' || '0' <= s[i]
            <= '9' || s[i] == '-'
}

/// A text is a locale exactly where its characters, from the first to the last, are laid out as
/// one: `C`, `POSIX` or two small letters with an optional underscore and two capitals; behind the
/// letters an optional at sign with letters and digits; and an optional dot with letters, digits
/// and hyphens.
pub proof fn law_locales_by_position(s: Seq<char>)
    ensures
        locale_value(s) <==> exists|b: int, m: int| laid_out(s, b, m),
{
    if locale_value(s) {
        let (n, c) = choose|n: Seq<char>, c: Seq<char>|
            #![trigger locale_name(n), codeset_part(c)]
            locale_name(n) && codeset_part(c) && s == n + c;
        let m = n.len() as int;
        assert forall|i: int| m <= i < s.len() implies s[i] == #[trigger] c[i - m] by {}
        assert forall|i: int| m < i < s.len() implies alphanumeric(#[trigger] s[i]) || s[i] == '-' by {
            assert(s[i] == c[i - m]);
        }
        if m < s.len() {
            assert(s[m] == c[0]);
        }
        if language_name(n) {
            let (l, t, mm) = choose|l: Seq<char>, t: Seq<char>, m: Seq<char>|
                #![trigger language(l), territory_part(t), modifier_part(m)]
                language(l) && territory_part(t) && modifier_part(m) && n == l + t + m;
            let b = (l + t).len() as int;
            assert forall|i: int| b < i < m implies alphanumeric(#[trigger] s[i]) by {
                assert(s[i] == mm[i - b]);
            }
            assert(s[0] == l[0] && s[1] == l[1]);
            if t.len() == 3 {
                assert(s[2] == t[0] && s[3] == t[1] && s[4] == t[2]);
            }
            if b < m {
                assert(s[b] == mm[0]);
            }
            assert(laid_out(s, b, m));
        } else {
            assert(s[0] == n[0]);
            if n.len() == 5 {
                assert(s[1] == n[1] && s[2] == n[2] && s[3] == n[3] && s[4] == n[4]);
            }
            assert(laid_out(s, m, m));
        }
    }
    if exists|b: int, m: int| laid_out(s, b, m) {
        let (b, m) = choose|b: int, m: int| laid_out(s, b, m);
        let n = s.take(m);
        let c = s.skip(m);
        assert(s =~= n + c);
        assert forall|i: int| 1 <= i < c.len() implies alphanumeric(#[trigger] c[i]) || c[i]
            == '-' by {
            assert(c[i] == s[m + i]);
        }
        assert(codeset_part(c));
        if s[0] == 'C' {
            assert(n =~= seq!['C']);
        } else if s[0] == 'P' {
            assert(n =~= seq!['P', 'O', 'S', 'I', 'X']);
        } else {
            let l = s.take(2);
            let t = s.subrange(2, b);
            let mm = s.subrange(b, m);
            assert(n =~= l + t + mm);
            assert forall|i: int| 1 <= i < mm.len() implies alphanumeric(#[trigger] mm[i]) by {
                assert(mm[i] == s[b + i]);
            }
            assert(language(l) && territory_part(t) && modifier_part(mm));
        }
        assert(locale_name(n));
    }
}

} // verus!
