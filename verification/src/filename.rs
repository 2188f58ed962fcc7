//! Turning a server-provided download name into a safe file name.
use vstd::prelude::*;

verus! {

/// The longest name, in characters, that `sanitize_filename` hands back.
pub const MAX_NAME_CHARS: usize = 150;

/// Characters that a sanitized name may hold as they are: ASCII letters and
/// digits, `.`, `-`, `_`, space, `(`, `)` and `+`.
pub open spec fn is_safe_char(c: char) -> bool {
    ||| ('a' <= c && c <= 'z')
    ||| ('A' <= c && c <= 'Z')
    ||| ('0' <= c && c <= '9')
    ||| c == '.'
    ||| c == '-'
    ||| c == '_'
    ||| c == ' '
    ||| c == '('
    ||| c == ')'
    ||| c == '+'
}

/// A character as it stands in a sanitized name: itself if safe, else `_`.
pub open spec fn clean_char(c: char) -> char {
    if is_safe_char(c) { c } else { '_' }
}

/// Characters trimmed from both ends of a name.
pub open spec fn is_trim_char(c: char) -> bool {
    c == '.' || c == ' '
}

/// `s` without its leading dots and spaces.
pub open spec fn trim_start(s: Seq<char>) -> Seq<char>
    decreases s.len(),
{
    if s.len() > 0 && is_trim_char(s[0]) {
        trim_start(s.drop_first())
    } else {
        s
    }
}

/// `s` without its trailing dots and spaces.
pub open spec fn trim_end(s: Seq<char>) -> Seq<char>
    decreases s.len(),
{
    if s.len() > 0 && is_trim_char(s.last()) {
        trim_end(s.drop_last())
    } else {
        s
    }
}

/// The name used when nothing usable is left: `download`.
pub open spec fn fallback_name() -> Seq<char> {
    seq!['d', 'o', 'w', 'n', 'l', 'o', 'a', 'd']
}

/// What `sanitize_filename` makes of `name`: every unsafe character becomes
/// `_`, dots and spaces are trimmed from both ends, the rest is cut to its
/// first 150 characters, and an empty result becomes `download`.
pub open spec fn sanitized(name: Seq<char>) -> Seq<char> {
    let trimmed = trim_end(trim_start(name.map_values(|c: char| clean_char(c))));
    let limited = if trimmed.len() > MAX_NAME_CHARS { trimmed.take(MAX_NAME_CHARS as int) } else { trimmed };
    if limited.len() == 0 { fallback_name() } else { limited }
}

proof fn lemma_trim_start_shape(s: Seq<char>)
    ensures
        exists|k: int| 0 <= k <= s.len() && trim_start(s) == s.skip(k),
        trim_start(s).len() > 0 ==> !is_trim_char(trim_start(s)[0]),
    decreases s.len(),
{
    if s.len() > 0 && is_trim_char(s[0]) {
        lemma_trim_start_shape(s.drop_first());
        let k = choose|k: int| 0 <= k <= s.drop_first().len() && trim_start(s.drop_first()) == s.drop_first().skip(k);
        assert(s.drop_first().skip(k) =~= s.skip(k + 1));
    } else {
        assert(s.skip(0) =~= s);
    }
}

proof fn lemma_trim_end_shape(s: Seq<char>)
    ensures
        exists|k: int| 0 <= k <= s.len() && trim_end(s) == s.take(k),
        trim_end(s).len() > 0 ==> !is_trim_char(trim_end(s).last()),
    decreases s.len(),
{
    if s.len() > 0 && is_trim_char(s.last()) {
        lemma_trim_end_shape(s.drop_last());
        let k = choose|k: int| 0 <= k <= s.drop_last().len() && trim_end(s.drop_last()) == s.drop_last().take(k);
        assert(s.drop_last().take(k) =~= s.take(k));
    } else {
        assert(s.take(s.len() as int) =~= s);
    }
}

/// Every sanitized name is non-empty, at most 150 characters long, made of
/// safe characters only (so it never holds a path separator) and does not
/// start with a dot or a space (so it is never `.` or `..` and never hidden).
pub proof fn lemma_sanitized_shape(name: Seq<char>)
    ensures
        0 < sanitized(name).len() <= MAX_NAME_CHARS,
        forall|i: int| 0 <= i < sanitized(name).len() ==> #[trigger] is_safe_char(sanitized(name)[i]),
        !is_trim_char(sanitized(name)[0]),
{
    let c = name.map_values(|ch: char| clean_char(ch));
    let a = trim_start(c);
    let t = trim_end(a);
    lemma_trim_start_shape(c);
    lemma_trim_end_shape(a);
    let ka = choose|k: int| 0 <= k <= c.len() && a == c.skip(k);
    let kt = choose|k: int| 0 <= k <= a.len() && t == a.take(k);
    assert forall|i: int| 0 <= i < t.len() implies #[trigger] is_safe_char(t[i]) by {
        assert(t[i] == c[ka + i]);
    }
    if t.len() > 0 {
        assert(t[0] == a[0]);
    }
}

proof fn lemma_trim_end_keeps_first(s: Seq<char>)
    requires
        s.len() > 0,
        !is_trim_char(s[0]),
    ensures
        trim_end(s).len() > 0,
    decreases s.len(),
{
    if s.len() > 1 && is_trim_char(s.last()) {
        lemma_trim_end_keeps_first(s.drop_last());
    }
}

/// Sanitizing a sanitized name only trims the dots and spaces that the cut
/// to 150 characters may have left at its end; a sanitized name that does
/// not end in a dot or a space is left as it is.
pub proof fn lemma_sanitize_twice(name: Seq<char>)
    ensures
        sanitized(sanitized(name)) == trim_end(sanitized(name)),
        !is_trim_char(sanitized(name).last()) ==> sanitized(sanitized(name)) == sanitized(name),
{
    let t = sanitized(name);
    lemma_sanitized_shape(name);
    let c = t.map_values(|ch: char| clean_char(ch));
    assert(c =~= t);
    assert(trim_start(t) == t);
    lemma_trim_end_shape(t);
    lemma_trim_end_keeps_first(t);
    if !is_trim_char(t.last()) {
        assert(trim_end(t) == t);
    }
}

/// The characters that a download name may keep: ASCII letters and digits,
/// `.`, `-`, `_`, space, `(`, `)` and `+`. Laws about `sanitize_filename`
/// are stated over this list.
pub open spec fn kept_in_names(c: char) -> bool {
    ||| ('a' <= c && c <= 'z')
    ||| ('A' <= c && c <= 'Z')
    ||| ('0' <= c && c <= '9')
    ||| c == '.'
    ||| c == '-'
    ||| c == '_'
    ||| c == ' '
    ||| c == '('
    ||| c == ')'
    ||| c == '+'
}

/// A name of at most 150 characters that neither starts nor ends with a dot
/// or a space keeps its length under sanitizing, and each of its characters
/// stays as it is when it is a letter, a digit, `.`, `-`, `_`, space, `(`,
/// `)` or `+`, and becomes `_` otherwise. In particular a name made only of
/// those characters comes back unchanged.
pub proof fn lemma_sanitize_characterwise(name: Seq<char>)
    requires
        0 < name.len() <= 150,
        name[0] != '.' && name[0] != ' ',
        name.last() != '.' && name.last() != ' ',
    ensures
        sanitized(name).len() == name.len(),
        forall|i: int| 0 <= i < name.len() ==> #[trigger] sanitized(name)[i] == if kept_in_names(name[i]) {
            name[i]
        } else {
            '_'
        },
        (forall|i: int| 0 <= i < name.len() ==> kept_in_names(#[trigger] name[i])) ==> sanitized(name) == name,
{
    let c = name.map_values(|ch: char| clean_char(ch));
    assert(c[0] == clean_char(name[0]));
    assert(c.last() == clean_char(name.last()));
    assert(trim_start(c) == c);
    assert(trim_end(c) == c);
    assert forall|i: int| 0 <= i < name.len() implies #[trigger] sanitized(name)[i] == if kept_in_names(name[i]) {
        name[i]
    } else {
        '_'
    } by {
        assert(sanitized(name)[i] == c[i]);
    }
    if forall|i: int| 0 <= i < name.len() ==> kept_in_names(#[trigger] name[i]) {
        assert(sanitized(name) =~= name);
    }
}

/// A name with nothing left after trimming its dots and spaces, the empty
/// name among them, is saved as `download`.
pub proof fn lemma_sanitize_empty_to_download(name: Seq<char>)
    requires
        forall|i: int| 0 <= i < name.len() ==> #[trigger] name[i] == '.' || name[i] == ' ',
    ensures
        sanitized(name) == seq!['d', 'o', 'w', 'n', 'l', 'o', 'a', 'd'],
{
    let c = name.map_values(|ch: char| clean_char(ch));
    lemma_trim_start_shape(c);
    let k = choose|k: int| 0 <= k <= c.len() && trim_start(c) == c.skip(k);
    if trim_start(c).len() > 0 {
        assert(trim_start(c)[0] == c[k]);
        assert(c[k] == clean_char(name[k]));
    }
    assert(trim_start(c).len() == 0);
    assert(trim_end(trim_start(c)).len() == 0);
}

fn is_safe(c: char) -> (r: bool)
    ensures
        r == is_safe_char(c),
{
    ('a' <= c && c <= 'z') || ('A' <= c && c <= 'Z') || ('0' <= c && c <= '9') || c == '.'
        || c == '-' || c == '_' || c == ' ' || c == '(' || c == ')' || c == '+'
}

fn is_trim(c: char) -> (r: bool)
    ensures
        r == is_trim_char(c),
{
    c == '.' || c == ' '
}

proof fn lemma_trim_start_step(c: Seq<char>, lo: int)
    requires
        0 <= lo < c.len(),
        is_trim_char(c[lo]),
    ensures
        trim_start(c.skip(lo)) == trim_start(c.skip(lo + 1)),
{
    assert(c.skip(lo).drop_first() =~= c.skip(lo + 1));
}

proof fn lemma_trim_end_step(c: Seq<char>, lo: int, hi: int)
    requires
        0 <= lo < hi <= c.len(),
        is_trim_char(c[hi - 1]),
    ensures
        trim_end(c.subrange(lo, hi)) == trim_end(c.subrange(lo, hi - 1)),
{
    assert(c.subrange(lo, hi).drop_last() =~= c.subrange(lo, hi - 1));
}

/// Strips path separators and unsafe characters from a server-provided name.
///
/// The result is exactly `sanitized(name@)`: unsafe characters become `_`,
/// leading and trailing dots and spaces go, at most 150 characters stay, and
/// an empty outcome becomes `download`. So the result is never empty, holds
/// only safe characters (never a `/`, `\` or `:`) and never starts with a dot
/// or a space.
pub fn sanitize_filename(name: &str) -> (res: String)
    ensures
        res@ == sanitized(name@),
        0 < res@.len() <= MAX_NAME_CHARS,
        forall|i: int| 0 <= i < res@.len() ==> #[trigger] is_safe_char(res@[i]),
        !is_trim_char(res@[0]),
{
    let ghost c = name@.map_values(|ch: char| clean_char(ch));
    let n = name.unicode_len();
    let mut lo: usize = 0;
    assert(c.skip(0) =~= c);
    while lo < n && is_trim(name.get_char(lo))
        invariant
            n == name@.len(),
            c.len() == n,
            c == name@.map_values(|ch: char| clean_char(ch)),
            lo <= n,
            trim_start(c) == trim_start(c.skip(lo as int)),
        decreases n - lo,
    {
        proof {
            lemma_trim_start_step(c, lo as int);
        }
        lo = lo + 1;
    }
    proof {
        if lo < n {
            assert(!is_trim_char(c[lo as int]));
            assert(c.skip(lo as int)[0] == c[lo as int]);
        }
        assert(trim_start(c) == c.skip(lo as int));
        assert(c.skip(lo as int) =~= c.subrange(lo as int, n as int));
    }
    let mut hi: usize = n;
    while hi > lo && is_trim(name.get_char(hi - 1))
        invariant
            n == name@.len(),
            c.len() == n,
            c == name@.map_values(|ch: char| clean_char(ch)),
            lo <= hi <= n,
            trim_start(c) == c.subrange(lo as int, n as int),
            lo < n ==> !is_trim_char(c[lo as int]),
            trim_end(trim_start(c)) == trim_end(c.subrange(lo as int, hi as int)),
        decreases hi,
    {
        proof {
            lemma_trim_end_step(c, lo as int, hi as int);
        }
        hi = hi - 1;
    }
    proof {
        let t = c.subrange(lo as int, hi as int);
        if hi > lo {
            assert(t.last() == c[hi - 1]);
        }
        assert(trim_end(t) == t);
    }
    let end: usize = if hi - lo > MAX_NAME_CHARS { lo + MAX_NAME_CHARS } else { hi };
    proof {
        let t = c.subrange(lo as int, hi as int);
        if hi - lo > MAX_NAME_CHARS {
            assert(t.take(MAX_NAME_CHARS as int) =~= c.subrange(lo as int, end as int));
        }
    }
    if end == lo {
        let fallback = "download".to_string();
        proof {
            reveal_strlit("download");
            assert(fallback@ =~= fallback_name());
        }
        return fallback;
    }
    let mut out = String::new();
    let mut i: usize = lo;
    while i < end
        invariant
            n == name@.len(),
            c.len() == n,
            c == name@.map_values(|ch: char| clean_char(ch)),
            lo <= i <= end <= n,
            out@ == c.subrange(lo as int, i as int),
        decreases end - i,
    {
        let ch = name.get_char(i);
        if is_safe(ch) {
            let piece = name.substring_char(i, i + 1);
            out.append(piece);
            assert(piece@ =~= seq![ch]);
        } else {
            let piece = "_";
            proof {
                reveal_strlit("_");
            }
            out.append(piece);
            assert(piece@ =~= seq!['_']);
        }
        assert(out@ =~= c.subrange(lo as int, i + 1));
        i = i + 1;
    }
    proof {
        assert forall|k: int| 0 <= k < out@.len() implies #[trigger] is_safe_char(out@[k]) by {
            assert(out@[k] == c[lo + k]);
        }
    }
    out
}

} // verus!
