//! Choosing a file name that does not collide with an existing file, by
//! appending ` (n)` before the extension.
use vstd::prelude::*;
use crate::filename::{fallback_name, is_safe_char, lemma_sanitized_shape, sanitized};
use crate::text::{decimal, digits_value, lemma_decimal_denotes, lemma_decimal_digits, owned_text_view, push_decimal, text_view};

verus! {

/// Numbered candidates are tried for `n` from 1 up to, not including, this bound.
pub const CANDIDATE_BOUND: u32 = 10000;

/// The index of the last `c` in `s`, or -1 when `s` holds none.
pub open spec fn last_index_of(s: Seq<char>, c: char) -> int
    decreases s.len(),
{
    if s.len() == 0 {
        -1
    } else if s.last() == c {
        s.len() - 1
    } else {
        last_index_of(s.drop_last(), c)
    }
}

/// `s` holds no `/`, `\` or `:`.
pub open spec fn no_separator(s: Seq<char>) -> bool {
    forall|i: int| 0 <= i < s.len() ==> #[trigger] s[i] != '/' && s[i] != '\\' && s[i] != ':'
}

/// A name that a path reads as one ordinary component on every platform:
/// non-empty, not `.` or `..`, and free of `/`, `\` and `:`.
pub open spec fn plain_file_name(s: Seq<char>) -> bool {
    &&& s.len() > 0
    &&& s != seq!['.']
    &&& s != seq!['.', '.']
    &&& no_separator(s)
}

/// The stem of a file name as the documentation of `Path::file_stem`
/// describes it: the whole name if it holds no dot, or only a leading one;
/// otherwise the part before the last dot.
pub open spec fn documented_stem(name: Seq<char>) -> Seq<char> {
    let k = last_index_of(name, '.');
    if k <= 0 { name } else { name.take(k) }
}

/// The extension of a file name as the documentation of `Path::extension`
/// describes it: none if the name holds no dot, or only a leading one;
/// otherwise the part after the last dot.
pub open spec fn documented_extension(name: Seq<char>) -> Option<Seq<char>> {
    let k = last_index_of(name, '.');
    if k <= 0 { None } else { Some(name.skip(k + 1)) }
}

/// A text that every platform reads as the same path: it holds no `\` and
/// no `:` (so no drive or device prefix) and does not start with `//` (which
/// some platforms read as a network share).
pub open spec fn portable_path(s: Seq<char>) -> bool {
    &&& forall|i: int| 0 <= i < s.len() ==> #[trigger] s[i] != '\\' && s[i] != ':'
    &&& !(s.len() >= 2 && s[0] == '/' && s[1] == '/')
}

/// The final component of a `/`-separated path, as the documentation of
/// `Path::file_name` and `Path::components` describes it: empty segments and
/// `.` segments are skipped (repeated and trailing separators and `.` are
/// normalized away); none when nothing is left or the path ends in `..`.
pub open spec fn final_component(s: Seq<char>) -> Option<Seq<char>>
    decreases s.len(),
{
    if s.len() == 0 {
        None
    } else {
        let k = last_index_of(s, '/');
        let seg = s.skip(k + 1);
        if seg.len() == 0 || seg == seq!['.'] {
            if k < 0 || k >= s.len() {
                None
            } else {
                final_component(s.take(k))
            }
        } else if seg == seq!['.', '.'] {
            None
        } else {
            Some(seg)
        }
    }
}

/// The stem `Path::file_stem` reads in a portable path: the documented stem
/// of its final component, if it has one.
pub open spec fn path_stem(s: Seq<char>) -> Option<Seq<char>> {
    match final_component(s) {
        Some(name) => Some(documented_stem(name)),
        None => None,
    }
}

/// The extension `Path::extension` reads in a portable path: the documented
/// extension of its final component, if it has one.
pub open spec fn path_extension(s: Seq<char>) -> Option<Seq<char>> {
    match final_component(s) {
        Some(name) => documented_extension(name),
        None => None,
    }
}

/// Calls `std::path::Path::file_stem` on `name` read as a path and keeps the
/// stem as text (it is always valid Unicode, being a piece of `name`). For a
/// portable path the contract states what the documentation of `file_name`,
/// `components` and `file_stem` says: none without a final component, else
/// the whole final component if it holds no dot or only a leading one, else
/// its part before the last dot. For other texts (holding `\` or `:`, or
/// starting with `//`) the result is left unstated: how such a path splits
/// into components depends on the platform.
#[verifier::external_body]
fn file_stem_text(name: &str) -> (res: Option<String>)
    ensures
        portable_path(name@) ==> owned_text_view(res) == path_stem(name@),
{
    let stem = std::path::Path::new(name).file_stem()?;
    stem.to_str().map(String::from)
}

/// Calls `std::path::Path::extension` on `name` read as a path and keeps the
/// extension as text. For a portable path the contract states what the
/// documentation of `file_name`, `components` and `extension` says: none
/// without a final component, none if that holds no dot or only a leading
/// one, else its part after the last dot. For other texts the result is left
/// unstated: how such a path splits into components depends on the platform.
#[verifier::external_body]
fn extension_text(name: &str) -> (res: Option<String>)
    ensures
        portable_path(name@) ==> owned_text_view(res) == path_extension(name@),
{
    let ext = std::path::Path::new(name).extension()?;
    ext.to_str().map(String::from)
}

/// A plain file name is a portable path whose final component is itself.
pub proof fn lemma_plain_is_own_component(s: Seq<char>)
    requires
        plain_file_name(s),
    ensures
        portable_path(s),
        final_component(s) == Some(s),
{
    lemma_no_slash_last_index(s);
    assert(s.skip(0) =~= s);
    if s.len() >= 2 {
        assert(s[0] != '/');
    }
}

proof fn lemma_no_slash_last_index(s: Seq<char>)
    requires
        no_separator(s),
    ensures
        last_index_of(s, '/') == -1,
    decreases s.len(),
{
    if s.len() > 0 {
        assert(s.last() == s[s.len() - 1]);
        assert(no_separator(s.drop_last())) by {
            assert forall|i: int| 0 <= i < s.drop_last().len() implies #[trigger] s.drop_last()[i] != '/'
                && s.drop_last()[i] != '\\' && s.drop_last()[i] != ':' by {
                assert(s.drop_last()[i] == s[i]);
            }
        }
        lemma_no_slash_last_index(s.drop_last());
    }
}

/// The `n`th numbered candidate: `stem (n).ext`, or `stem (n)` without an
/// extension.
pub open spec fn numbered(stem: Seq<char>, ext: Option<Seq<char>>, n: nat) -> Seq<char> {
    let base = stem + seq![' ', '('] + decimal(n) + seq![')'];
    match ext {
        Some(e) => base + seq!['.'] + e,
        None => base,
    }
}

/// The stem that numbering uses: the one given, or `download` when there is none.
pub open spec fn stem_or_fallback(stem: Option<Seq<char>>) -> Seq<char> {
    match stem {
        Some(s) => s,
        None => fallback_name(),
    }
}

/// The oracle `taken` answered `answer` when asked about `name`.
pub open spec fn reports<F: Fn(&str) -> bool>(taken: F, name: Seq<char>, answer: bool) -> bool {
    exists|s: &str| s@ == name && #[trigger] taken.ensures((s,), answer)
}

/// The choice among `base` and its numbered candidates that `taken` allows:
/// `base` itself if it is free; else the first free candidate numbered below
/// 10000; else, when every one of them is taken, no name at all.
pub open spec fn unique_outcome<F: Fn(&str) -> bool>(
    taken: F,
    base: Seq<char>,
    stem: Seq<char>,
    ext: Option<Seq<char>>,
    res: Option<Seq<char>>,
) -> bool {
    ||| reports(taken, base, false) && res == Some(base)
    ||| reports(taken, base, true) && exists|i: int|
        1 <= i < CANDIDATE_BOUND && res == Some(#[trigger] numbered(stem, ext, i as nat)) && reports(
            taken,
            numbered(stem, ext, i as nat),
            false,
        ) && forall|j: int| 1 <= j < i ==> reports(taken, #[trigger] numbered(stem, ext, j as nat), true)
    ||| reports(taken, base, true) && res is None && forall|j: int|
        1 <= j < CANDIDATE_BOUND ==> reports(taken, #[trigger] numbered(stem, ext, j as nat), true)
}

/// Builds the `n`th numbered candidate `stem (n).ext` (or `stem (n)`).
pub fn numbered_name(stem: &str, ext: Option<&str>, n: u32) -> (res: String)
    ensures
        res@ == numbered(stem@, text_view(ext), n as nat),
{
    let mut out = stem.to_string();
    let open = " (";
    let close = ")";
    proof {
        reveal_strlit(" (");
        reveal_strlit(")");
    }
    out.append(open);
    push_decimal(&mut out, n);
    out.append(close);
    assert(out@ =~= stem@ + seq![' ', '('] + decimal(n as nat) + seq![')']);
    match ext {
        Some(e) => {
            let dot = ".";
            proof {
                reveal_strlit(".");
            }
            out.append(dot);
            out.append(e);
            assert(out@ =~= stem@ + seq![' ', '('] + decimal(n as nat) + seq![')'] + seq!['.'] + e@);
        },
        None => {},
    }
    out
}

/// Picks a name that `taken` reports as free: `filename` itself, else the
/// first of `stem (1).ext`, `stem (2).ext`, ... below 10000 (with `download`
/// as the stem when none is given, and no extension when none is given).
/// When every one of them is taken there is no such name, and `None` comes
/// back: a name that `taken` reports as existing is never handed out.
pub fn choose_unique_name<F: Fn(&str) -> bool>(
    filename: &str,
    stem: Option<&str>,
    ext: Option<&str>,
    taken: &F,
) -> (res: Option<String>)
    requires
        forall|s: &str| #[trigger] taken.requires((s,)),
    ensures
        unique_outcome(
            *taken,
            filename@,
            stem_or_fallback(text_view(stem)),
            text_view(ext),
            owned_text_view(res),
        ),
        res matches Some(name) ==> reports(*taken, name@, false),
{
    let ghost st_v = stem_or_fallback(text_view(stem));
    let ghost ext_v = text_view(ext);
    let base_taken = taken(filename);
    assert(taken.ensures((filename,), base_taken));
    if !base_taken {
        return Some(filename.to_string());
    }
    let st: &str = match stem {
        Some(s) => s,
        None => {
            let d = "download";
            proof {
                reveal_strlit("download");
                assert(d@ =~= fallback_name());
            }
            d
        },
    };
    assert(st@ == st_v);
    let mut i: u32 = 1;
    while i < CANDIDATE_BOUND
        invariant
            1 <= i <= CANDIDATE_BOUND,
            st@ == st_v,
            st_v == stem_or_fallback(text_view(stem)),
            text_view(ext) == ext_v,
            forall|s: &str| #[trigger] taken.requires((s,)),
            reports(*taken, filename@, true),
            forall|j: int| 1 <= j < i ==> reports(*taken, #[trigger] numbered(st_v, ext_v, j as nat), true),
        decreases CANDIDATE_BOUND - i,
    {
        let cand = numbered_name(st, ext, i);
        let cand_text: &str = cand.as_str();
        let free = !taken(cand_text);
        assert(taken.ensures((cand_text,), !free));
        if free {
            proof {
                let k: int = i as int;
                assert(cand@ == numbered(st_v, ext_v, k as nat));
                assert(reports(*taken, cand@, false));
                assert(unique_outcome(*taken, filename@, st_v, ext_v, Some(cand@)));
            }
            return Some(cand);
        }
        assert(reports(*taken, numbered(st_v, ext_v, i as nat), true));
        i = i + 1;
    }
    None
}

/// Returns a name that does not collide with an existing file, as the oracle
/// `taken` reports existence: `filename` itself if free, else the first free
/// `stem (n).ext` for `n` in `1..10000`, where stem and extension are those
/// that `std::path::Path` reads in `filename` (stem `download` when it reads
/// none). When all of them are taken, `None`: no colliding name is ever
/// returned. For a portable path the stem and extension are those of its
/// final component; for a plain file name, those of the name itself.
pub fn unique_path<F: Fn(&str) -> bool>(filename: &str, taken: &F) -> (res: Option<String>)
    requires
        forall|s: &str| #[trigger] taken.requires((s,)),
    ensures
        res matches Some(name) ==> reports(*taken, name@, false),
        exists|stem: Seq<char>, ext: Option<Seq<char>>|
            #[trigger] unique_outcome(*taken, filename@, stem, ext, owned_text_view(res)),
        portable_path(filename@) ==> unique_outcome(
            *taken,
            filename@,
            stem_or_fallback(path_stem(filename@)),
            path_extension(filename@),
            owned_text_view(res),
        ),
        plain_file_name(filename@) ==> unique_outcome(
            *taken,
            filename@,
            documented_stem(filename@),
            documented_extension(filename@),
            owned_text_view(res),
        ),
{
    let stem = file_stem_text(filename);
    let ext = extension_text(filename);
    let stem_ref: Option<&str> = match &stem {
        Some(s) => Some(s.as_str()),
        None => None,
    };
    let ext_ref: Option<&str> = match &ext {
        Some(e) => Some(e.as_str()),
        None => None,
    };
    assert(portable_path(filename@) ==> text_view(stem_ref) == path_stem(filename@));
    assert(portable_path(filename@) ==> text_view(ext_ref) == path_extension(filename@));
    proof {
        if plain_file_name(filename@) {
            lemma_plain_is_own_component(filename@);
        }
    }
    choose_unique_name(filename, stem_ref, ext_ref, taken)
}

/// A sanitized name is a plain file name, so `unique_path` numbers it with
/// exactly its documented stem and extension.
pub proof fn lemma_sanitized_is_plain(name: Seq<char>)
    ensures
        plain_file_name(sanitized(name)),
{
    let t = sanitized(name);
    lemma_sanitized_shape(name);
    assert forall|i: int| 0 <= i < t.len() implies #[trigger] t[i] != '/' && t[i] != '\\' && t[i] != ':' by {
        assert(is_safe_char(t[i]));
    }
    assert(t[0] != '.');
}

proof fn lemma_last_index_bounds(s: Seq<char>, c: char)
    ensures
        -1 <= last_index_of(s, c) < s.len(),
    decreases s.len(),
{
    if s.len() > 0 && s.last() != c {
        lemma_last_index_bounds(s.drop_last(), c);
    }
}

proof fn lemma_no_separator_concat(a: Seq<char>, b: Seq<char>)
    requires
        no_separator(a),
        no_separator(b),
    ensures
        no_separator(a + b),
{
    assert forall|i: int| 0 <= i < (a + b).len() implies #[trigger] (a + b)[i] != '/' && (a + b)[i]
        != '\\' && (a + b)[i] != ':' by {
        if i < a.len() {
            assert((a + b)[i] == a[i]);
        } else {
            assert((a + b)[i] == b[i - a.len()]);
        }
    }
}

/// Numbering a plain file name with its documented stem and extension gives
/// a plain file name again: the candidates never hold a path separator.
pub proof fn lemma_numbered_plain(name: Seq<char>, n: nat)
    requires
        plain_file_name(name),
    ensures
        plain_file_name(numbered(documented_stem(name), documented_extension(name), n)),
{
    let k = last_index_of(name, '.');
    lemma_last_index_bounds(name, '.');
    lemma_decimal_digits(n);
    let st = documented_stem(name);
    assert(no_separator(st)) by {
        assert forall|i: int| 0 <= i < st.len() implies #[trigger] st[i] != '/' && st[i] != '\\'
            && st[i] != ':' by {
            assert(st[i] == name[i]);
        }
    }
    assert(no_separator(decimal(n)));
    let open = seq![' ', '('];
    let close = seq![')'];
    assert(no_separator(open));
    assert(no_separator(close));
    lemma_no_separator_concat(st, open);
    lemma_no_separator_concat(st + open, decimal(n));
    lemma_no_separator_concat(st + open + decimal(n), close);
    let base = st + open + decimal(n) + close;
    assert(base[st.len() + 1int] == '(');
    match documented_extension(name) {
        Some(e) => {
            assert(e == name.skip(k + 1));
            assert(no_separator(e)) by {
                assert forall|i: int| 0 <= i < e.len() implies #[trigger] e[i] != '/' && e[i] != '\\'
                    && e[i] != ':' by {
                    assert(e[i] == name[k + 1 + i]);
                }
            }
            let dot = seq!['.'];
            assert(no_separator(dot));
            lemma_no_separator_concat(base, dot);
            lemma_no_separator_concat(base + dot, e);
            let r = base + dot + e;
            assert(r[st.len() + 1int] == '(');
        },
        None => {},
    }
}

/// A numbered candidate is the stem, a space, the number in decimal digits
/// between round brackets, and then, when there is an extension, a dot and
/// the extension.
pub proof fn lemma_numbered_shape(stem: Seq<char>, ext: Option<Seq<char>>, n: nat)
    ensures
        ({
            let r = numbered(stem, ext, n);
            let d = decimal(n);
            let k = stem.len() as int;
            let m = d.len() as int;
            &&& r.take(k) == stem
            &&& r[k] == ' '
            &&& r[k + 1] == '('
            &&& r.subrange(k + 2, k + 2 + m) == d
            &&& digits_value(d) == n
            &&& r[k + 2 + m] == ')'
            &&& match ext {
                Some(e) => r.len() == k + 4 + m + e.len() && r[k + 3 + m] == '.' && r.skip(k + 4 + m) == e,
                None => r.len() == k + 3 + m,
            }
        }),
{
    lemma_decimal_denotes(n);
    let r = numbered(stem, ext, n);
    let d = decimal(n);
    let k = stem.len() as int;
    let m = d.len() as int;
    assert(r.take(k) =~= stem);
    assert(r.subrange(k + 2, k + 2 + m) =~= d);
    match ext {
        Some(e) => {
            assert(r.skip(k + 4 + m) =~= e);
        },
        None => {},
    }
}

/// With an oracle that gives one answer per name: a free name is kept; a
/// taken name whose first candidate ` (1)` is free becomes that candidate;
/// when the name and its candidates 1 to 9999 are all taken there is no
/// name; and whatever name comes back is free.
pub proof fn lemma_unique_outcome_cases<F: Fn(&str) -> bool>(
    taken: F,
    base: Seq<char>,
    stem: Seq<char>,
    ext: Option<Seq<char>>,
    res: Option<Seq<char>>,
)
    requires
        unique_outcome(taken, base, stem, ext, res),
        forall|x: Seq<char>| !(#[trigger] reports(taken, x, true) && reports(taken, x, false)),
    ensures
        reports(taken, base, false) ==> res == Some(base),
        reports(taken, base, true) && reports(taken, numbered(stem, ext, 1), false) ==> res == Some(
            numbered(stem, ext, 1),
        ),
        reports(taken, base, true) && (forall|j: int| 1 <= j <= 9999 ==> reports(taken, #[trigger] numbered(stem, ext, j as nat), true)) ==> res is None,
        res matches Some(name) ==> reports(taken, name, false),
{
    if reports(taken, base, true) && res is Some && res != Some(base) {
        let i = choose|i: int|
            1 <= i < CANDIDATE_BOUND && res == Some(#[trigger] numbered(stem, ext, i as nat)) && reports(
                taken,
                numbered(stem, ext, i as nat),
                false,
            ) && forall|j: int| 1 <= j < i ==> reports(taken, #[trigger] numbered(stem, ext, j as nat), true);
        if reports(taken, numbered(stem, ext, 1), false) && i != 1 {
            assert(reports(taken, numbered(stem, ext, 1), true));
        }
        if forall|j: int| 1 <= j <= 9999 ==> reports(taken, #[trigger] numbered(stem, ext, j as nat), true) {
            assert(reports(taken, numbered(stem, ext, i as nat), true));
        }
    }
}

} // verus!
