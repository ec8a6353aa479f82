//! Python version detection from `.python-version` and `pyproject.toml`.

use vstd::prelude::*;

use crate::strutil::{
    find, idx_of, lemma_idx_of_props, line_seqs, match_at, split_lines, starts_with, strip_reps,
    strip_reps_spec, trim, trim_spec,
};

verus! {

/// A version requirement with its leading comparison operators removed and
/// the remainder trimmed.
pub open spec fn clean_version_spec_fn(s: Seq<char>) -> Seq<char> {
    trim_spec(
        strip_reps_spec(
            strip_reps_spec(
                strip_reps_spec(
                    strip_reps_spec(strip_reps_spec(strip_reps_spec(s, ">="@), "<="@), "=="@),
                    "~="@,
                ),
                ">"@,
            ),
            "<"@,
        ),
    )
}

/// Cleans a version specifier by removing comparison operators.
pub fn clean_version_spec(raw: &str) -> (r: String)
    ensures
        r@ == clean_version_spec_fn(raw@),
{
    proof {
        reveal_strlit(">=");
        reveal_strlit("<=");
        reveal_strlit("==");
        reveal_strlit("~=");
        reveal_strlit(">");
        reveal_strlit("<");
    }
    let a = strip_reps(raw, ">=");
    let b = strip_reps(a, "<=");
    let c = strip_reps(b, "==");
    let d = strip_reps(c, "~=");
    let e = strip_reps(d, ">");
    let f = strip_reps(e, "<");
    trim(f).to_owned()
}

/// The text between the first pair of `q` quotes in `t`.
pub open spec fn quoted_value(t: Seq<char>, q: Seq<char>) -> Option<Seq<char>> {
    let i = idx_of(t, q);
    if i < 0 {
        None
    } else {
        let rest = t.subrange(i + 1, t.len() as int);
        let j = idx_of(rest, q);
        if j < 0 {
            None
        } else {
            Some(rest.subrange(0, j))
        }
    }
}

/// Extracts the text between the first pair of quotes, where `q` holds the
/// single quote character looked for.
fn quoted_value_exec(t: &str, q: &str) -> (r: Option<String>)
    requires
        q@.len() == 1,
    ensures
        r.deep_view() == quoted_value(t@, q@),
{
    let n: usize = t.unicode_len();
    let i: usize = match find(t, q) {
        Some(i) => i,
        None => { return None; },
    };
    proof {
        lemma_idx_of_props(t@, q@);
    }
    let rest: &str = t.substring_char(i + 1, n);
    let j: usize = match find(rest, q) {
        Some(j) => j,
        None => { return None; },
    };
    proof {
        lemma_idx_of_props(rest@, q@);
    }
    Some(rest.substring_char(0, j).to_owned())
}

/// What a single `pyproject.toml` line contributes: the cleaned value of a
/// `requires-python` entry, quoted with double or single quotes.
pub open spec fn requires_python_of_line(l: Seq<char>) -> Option<Seq<char>> {
    let t = trim_spec(l);
    if !match_at(t, "requires-python"@, 0) {
        None
    } else {
        match quoted_value(t, "\""@) {
            Some(v) => Some(clean_version_spec_fn(v)),
            None => match quoted_value(t, "'"@) {
                Some(v) => Some(clean_version_spec_fn(v)),
                None => None,
            },
        }
    }
}

/// The first line's `requires-python` value, scanning top to bottom.
pub open spec fn extract_requires_python_spec(ls: Seq<Seq<char>>) -> Option<Seq<char>>
    decreases ls.len(),
{
    if ls.len() == 0 {
        None
    } else if requires_python_of_line(ls[0]) is Some {
        requires_python_of_line(ls[0])
    } else {
        extract_requires_python_spec(ls.drop_first())
    }
}

/// Extracts the `requires-python` version from `pyproject.toml` content.
pub fn extract_requires_python(content: &str) -> (r: Option<String>)
    ensures
        r.deep_view() == extract_requires_python_spec(line_seqs(content@)),
{
    let lines = split_lines(content);
    let ghost all = line_seqs(content@);
    let m: usize = lines.len();
    let mut k: usize = 0;
    proof {
        assert(all.subrange(0, m as int) =~= all);
    }
    while k < m
        invariant
            all == line_seqs(content@),
            m == all.len(),
            lines.deep_view() == all,
            lines.len() == m,
            k <= m,
            extract_requires_python_spec(all) == extract_requires_python_spec(
                all.subrange(k as int, m as int),
            ),
        decreases m - k,
    {
        let line: &str = lines[k];
        proof {
            assert(lines.deep_view()[k as int] == lines@[k as int]@);
            assert(line@ == all[k as int]);
        }
        let t: &str = trim(line);
        let ghost tail = all.subrange(k as int, m as int);
        proof {
            assert(tail[0] == all[k as int]);
            assert(tail.drop_first() =~= all.subrange(k as int + 1, m as int));
        }
        if starts_with(t, "requires-python") {
            proof {
                reveal_strlit("\"");
                reveal_strlit("'");
            }
            match quoted_value_exec(t, "\"") {
                Some(v) => {
                    let cleaned = clean_version_spec(v.as_str());
                    proof {
                        assert(requires_python_of_line(tail[0]) == Some(cleaned@));
                        assert(extract_requires_python_spec(tail) == Some(cleaned@));
                    }
                    return Some(cleaned);
                },
                None => {
                    match quoted_value_exec(t, "'") {
                        Some(v) => {
                            let cleaned = clean_version_spec(v.as_str());
                            proof {
                                assert(requires_python_of_line(tail[0]) == Some(cleaned@));
                                assert(extract_requires_python_spec(tail) == Some(cleaned@));
                            }
                            return Some(cleaned);
                        },
                        None => {
                            proof {
                                assert(requires_python_of_line(all[k as int]) is None);
                            }
                        },
                    }
                },
            }
        } else {
            proof {
                assert(requires_python_of_line(all[k as int]) is None);
            }
        }
        k += 1;
    }
    proof {
        assert(all.subrange(m as int, m as int) =~= Seq::<Seq<char>>::empty());
    }
    None
}

/// The Python version selected from the two candidate files: a non-empty
/// trimmed `.python-version` wins; otherwise the `requires-python` entry of
/// `pyproject.toml`; otherwise `"latest"`.
pub open spec fn python_version_spec(pv: Option<Seq<char>>, pp: Option<Seq<char>>) -> Seq<char> {
    match pv {
        Some(c) => if trim_spec(c).len() > 0 {
            trim_spec(c)
        } else {
            python_fallback_spec(pp)
        },
        None => python_fallback_spec(pp),
    }
}

/// The version `pyproject.toml` contributes when `.python-version` yields
/// nothing.
pub open spec fn python_fallback_spec(pp: Option<Seq<char>>) -> Seq<char> {
    match pp {
        Some(c) => match extract_requires_python_spec(line_seqs(c)) {
            Some(v) => v,
            None => "latest"@,
        },
        None => "latest"@,
    }
}

/// Reads the Python version from the contents of `.python-version`
/// (preferred when non-empty after trimming) or `pyproject.toml`; `None`
/// stands for an absent file.
pub fn get_python_version(python_version: &Option<String>, pyproject: &Option<String>) -> (r:
    String)
    ensures
        r@ == python_version_spec(python_version.deep_view(), pyproject.deep_view()),
{
    match python_version {
        Some(c) => {
            let t = trim(c.as_str());
            if t.unicode_len() > 0 {
                return t.to_owned();
            }
        },
        None => {},
    }
    match pyproject {
        Some(c) => match extract_requires_python(c.as_str()) {
            Some(v) => v,
            None => "latest".to_owned(),
        },
        None => "latest".to_owned(),
    }
}

} // verus!
