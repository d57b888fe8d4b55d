//! Deciding which files the folder scan keeps: a file qualifies when its
//! extension, taken case-insensitively from the final path component, is one
//! of `jpg`, `jpeg`, `png`.

use vstd::prelude::*;

verus! {

/// Path separators: both styles are recognised, so that path strings from
/// either platform convention are split the same way.
pub open spec fn is_separator(c: char) -> bool {
    c == '/' || c == '\\'
}

/// Index of the last separator in `s`, or -1 when `s` has none.
pub open spec fn last_sep_index(s: Seq<char>) -> int
    decreases s.len(),
{
    if s.len() == 0 {
        -1
    } else if is_separator(s.last()) {
        s.len() - 1
    } else {
        last_sep_index(s.drop_last())
    }
}

/// Index of the last `.` in `s`, or -1 when `s` has none.
pub open spec fn last_dot_index(s: Seq<char>) -> int
    decreases s.len(),
{
    if s.len() == 0 {
        -1
    } else if s.last() == '.' {
        s.len() - 1
    } else {
        last_dot_index(s.drop_last())
    }
}

/// The final component of a path: everything after the last separator.
pub open spec fn file_name_of(path: Seq<char>) -> Seq<char> {
    path.subrange(last_sep_index(path) + 1, path.len() as int)
}

/// The extension of a file name: what follows the last `.`, provided that
/// dot is neither absent nor the leading character (a name such as
/// `.config` has no extension).  A name ending in `.` has the empty
/// extension, which no allow-list entry matches.
pub open spec fn extension_of(name: Seq<char>) -> Option<Seq<char>> {
    let d = last_dot_index(name);
    if d <= 0 {
        None
    } else {
        Some(name.subrange(d + 1, name.len() as int))
    }
}

/// Case-insensitive match of one character against a letter given in both
/// its lowercase and uppercase form.
pub open spec fn eq_ci(c: char, lo: char, up: char) -> bool {
    c == lo || c == up
}

/// The extension allow-list: `jpg`, `jpeg` or `png`, case-insensitively.
pub open spec fn ext_allowed(e: Seq<char>) -> bool {
    ||| (e.len() == 3 && eq_ci(e[0], 'j', 'J') && eq_ci(e[1], 'p', 'P') && eq_ci(e[2], 'g', 'G'))
    ||| (e.len() == 4 && eq_ci(e[0], 'j', 'J') && eq_ci(e[1], 'p', 'P') && eq_ci(e[2], 'e', 'E')
        && eq_ci(e[3], 'g', 'G'))
    ||| (e.len() == 3 && eq_ci(e[0], 'p', 'P') && eq_ci(e[1], 'n', 'N') && eq_ci(e[2], 'g', 'G'))
}

/// A path is kept by the scan exactly when its final component carries an
/// allow-listed extension.
pub open spec fn spec_is_supported_image(path: Seq<char>) -> bool {
    match extension_of(file_name_of(path)) {
        Some(e) => ext_allowed(e),
        None => false,
    }
}

/// A position holding a separator with no separator after it is the last
/// separator position.
proof fn lemma_last_sep_unique(s: Seq<char>, k: int)
    requires
        0 <= k < s.len(),
        is_separator(s[k]),
        forall|j: int| k < j < s.len() ==> !is_separator(s[j]),
    ensures
        last_sep_index(s) == k,
    decreases s.len(),
{
    if k == s.len() - 1 {
    } else {
        assert(!is_separator(s.last()));
        lemma_last_sep_unique(s.drop_last(), k);
    }
}

/// A sequence without separators has no last separator position.
proof fn lemma_no_sep(s: Seq<char>)
    requires
        forall|j: int| 0 <= j < s.len() ==> !is_separator(s[j]),
    ensures
        last_sep_index(s) == -1,
    decreases s.len(),
{
    if s.len() > 0 {
        lemma_no_sep(s.drop_last());
    }
}

/// A position holding a `.` with no `.` after it is the last dot position.
proof fn lemma_last_dot_unique(s: Seq<char>, k: int)
    requires
        0 <= k < s.len(),
        s[k] == '.',
        forall|j: int| k < j < s.len() ==> s[j] != '.',
    ensures
        last_dot_index(s) == k,
    decreases s.len(),
{
    if k == s.len() - 1 {
    } else {
        assert(s.last() != '.');
        lemma_last_dot_unique(s.drop_last(), k);
    }
}

/// A sequence without dots has no last dot position.
proof fn lemma_no_dot(s: Seq<char>)
    requires
        forall|j: int| 0 <= j < s.len() ==> s[j] != '.',
    ensures
        last_dot_index(s) == -1,
    decreases s.len(),
{
    if s.len() > 0 {
        lemma_no_dot(s.drop_last());
    }
}

/// Whether a path names a file the scan keeps: the extension of its final
/// component is, case-insensitively, `jpg`, `jpeg` or `png`.
pub fn is_supported_image(path: &str) -> (r: bool)
    ensures
        r == spec_is_supported_image(path@),
{
    let n = path.unicode_len();
    let mut i: usize = 0;
    let mut sep_found = false;
    let mut sep_pos: usize = 0;
    let mut dot_found = false;
    let mut dot_pos: usize = 0;
    while i < n
        invariant
            n == path@.len(),
            i <= n,
            sep_found ==> sep_pos < i && is_separator(path@[sep_pos as int]),
            sep_found ==> forall|j: int| sep_pos < j < i ==> !is_separator(path@[j]),
            !sep_found ==> forall|j: int| 0 <= j < i ==> !is_separator(path@[j]),
            dot_found ==> dot_pos < i && path@[dot_pos as int] == '.',
            dot_found ==> forall|j: int| dot_pos < j < i ==> path@[j] != '.',
            !dot_found ==> forall|j: int| 0 <= j < i ==> path@[j] != '.',
        decreases n - i,
    {
        let c = path.get_char(i);
        if c == '/' || c == '\\' {
            sep_found = true;
            sep_pos = i;
        } else if c == '.' {
            dot_found = true;
            dot_pos = i;
        }
        i += 1;
    }
    let ghost sep: int = if sep_found {
        sep_pos as int
    } else {
        -1
    };
    proof {
        if sep_found {
            lemma_last_sep_unique(path@, sep_pos as int);
        } else {
            lemma_no_sep(path@);
        }
    }
    let ghost name: Seq<char> = file_name_of(path@);
    if !dot_found {
        proof {
            assert(forall|k: int| 0 <= k < name.len() ==> name[k] == path@[sep + 1 + k]);
            lemma_no_dot(name);
        }
        return false;
    }
    if sep_found && dot_pos < sep_pos {
        proof {
            assert(forall|k: int| 0 <= k < name.len() ==> name[k] == path@[sep + 1 + k]);
            assert(forall|j: int| sep < j < path@.len() ==> path@[j] != '.');
            lemma_no_dot(name);
        }
        return false;
    }
    // The last dot lies inside the final component.
    proof {
        assert(sep < dot_pos as int);
        lemma_last_dot_unique(name, dot_pos - sep - 1);
    }
    if !sep_found && dot_pos == 0 {
        return false;
    }
    if sep_found && dot_pos == sep_pos + 1 {
        return false;
    }
    let ghost ext: Seq<char> = name.subrange(dot_pos - sep, name.len() as int);
    proof {
        assert(extension_of(name) == Some(ext));
        assert(ext =~= path@.subrange(dot_pos as int + 1, n as int));
    }
    let ext_len = n - dot_pos - 1;
    if ext_len == 3 {
        let c0 = path.get_char(dot_pos + 1);
        let c1 = path.get_char(dot_pos + 2);
        let c2 = path.get_char(dot_pos + 3);
        ((c0 == 'j' || c0 == 'J') && (c1 == 'p' || c1 == 'P') && (c2 == 'g' || c2 == 'G')) || ((c0
            == 'p' || c0 == 'P') && (c1 == 'n' || c1 == 'N') && (c2 == 'g' || c2 == 'G'))
    } else if ext_len == 4 {
        let c0 = path.get_char(dot_pos + 1);
        let c1 = path.get_char(dot_pos + 2);
        let c2 = path.get_char(dot_pos + 3);
        let c3 = path.get_char(dot_pos + 4);
        (c0 == 'j' || c0 == 'J') && (c1 == 'p' || c1 == 'P') && (c2 == 'e' || c2 == 'E') && (c3
            == 'g' || c3 == 'G')
    } else {
        false
    }
}

/// The predicate the scan filters by, over owned path strings.
pub open spec fn keeps(s: String) -> bool {
    spec_is_supported_image(s@)
}

/// The filter predicate as a single value, so that every statement about
/// the scan's filtering speaks of one and the same function.
pub open spec fn keeps_pred() -> spec_fn(String) -> bool {
    |s: String| keeps(s)
}

/// Keep, in order, exactly the paths whose extension is allow-listed.
pub fn filter_supported(names: &Vec<String>) -> (r: Vec<String>)
    ensures
        r@ == names@.filter(keeps_pred()),
{

    let mut r: Vec<String> = Vec::new();
    let mut i: usize = 0;
    proof {
        reveal(Seq::filter);
        assert(names@.subrange(0, 0).filter(keeps_pred()) =~= Seq::<String>::empty());
    }
    while i < names.len()
        invariant
            i <= names@.len(),
            r@ == names@.subrange(0, i as int).filter(keeps_pred()),
        decreases names@.len() - i,
    {
        let ghost pre: Seq<String> = names@.subrange(0, i as int);
        if is_supported_image(names[i].as_str()) {
            r.push(names[i].clone());
        }
        proof {
            let x = names@[i as int];
            assert(names@.subrange(0, i + 1) =~= pre.push(x));
            assert(keeps_pred()(x) == keeps(x));
            pre.lemma_filter_push(x, keeps_pred());
        }
        i += 1;
    }
    proof {
        assert(names@.subrange(0, names@.len() as int) =~= names@);
    }
    r
}

/// Soundness of the scan filter: every path it keeps carries an
/// allow-listed extension.
pub proof fn lemma_filter_supported_sound(names: Seq<String>, i: int)
    requires
        0 <= i < names.filter(keeps_pred()).len(),
    ensures
        spec_is_supported_image(names.filter(keeps_pred())[i]@),
{
    names.lemma_filter_pred(keeps_pred(), i);
}

/// Completeness of the scan filter: every path with an allow-listed
/// extension, at whatever depth the walk found it, is kept.
pub proof fn lemma_filter_supported_complete(names: Seq<String>, i: int)
    requires
        0 <= i < names.len(),
        spec_is_supported_image(names[i]@),
    ensures
        names.filter(keeps_pred()).contains(names[i]),
{
    names.lemma_filter_contains(keeps_pred(), i);
}

} // verus!
