//! Gradle version detection from `gradle/wrapper/gradle-wrapper.properties`.

use vstd::prelude::*;

use crate::strutil::{
    find, idx_of, lemma_idx_of_props, line_seqs, match_at, replace_all, replace_spec, split_lines,
    starts_with, trim, trim_spec,
};

verus! {

/// The version encoded in a Gradle distribution URL: the text between
/// `gradle-` and the next `-`, after unescaping `\:` to `:`.
pub open spec fn version_from_url_spec(url: Seq<char>) -> Option<Seq<char>> {
    let u = replace_spec(url, "\\:"@, ":"@);
    let i = idx_of(u, "gradle-"@);
    if i < 0 {
        None
    } else {
        let after = u.subrange(i + 7, u.len() as int);
        let j = idx_of(after, seq!['-']);
        if j < 0 {
            None
        } else {
            Some(after.subrange(0, j))
        }
    }
}

/// Extracts the version from a distribution URL such as
/// `https://services.gradle.org/distributions/gradle-8.5-bin.zip`.
pub fn extract_version_from_url(url: &str) -> (r: Option<String>)
    ensures
        r.deep_view() == version_from_url_spec(url@),
{
    proof {
        reveal_strlit("\\:");
        reveal_strlit(":");
        reveal_strlit("-");
        assert("-"@ =~= seq!['-']);
    }
    let u = replace_all(url, "\\:", ":");
    let n: usize = u.as_str().unicode_len();
    let i: usize = match find(u.as_str(), "gradle-") {
        Some(i) => i,
        None => { return None; },
    };
    proof {
        lemma_idx_of_props(u@, "gradle-"@);
        reveal_strlit("gradle-");
    }
    let after: &str = u.as_str().substring_char(i + 7, n);
    let j: usize = match find(after, "-") {
        Some(j) => j,
        None => { return None; },
    };
    proof {
        lemma_idx_of_props(after@, "-"@);
    }
    Some(after.substring_char(0, j).to_owned())
}

/// The text of `l` between its first `=` and the following `=` or the end:
/// what `split('=')` yields as the second piece.
pub open spec fn second_eq_field(l: Seq<char>) -> Option<Seq<char>> {
    let i = idx_of(l, seq!['=']);
    if i < 0 {
        None
    } else {
        let rest = l.subrange(i + 1, l.len() as int);
        let j = idx_of(rest, seq!['=']);
        if j < 0 {
            Some(rest)
        } else {
            Some(rest.subrange(0, j))
        }
    }
}

/// The second `=`-separated piece of `l`, if `l` holds a `=`.
fn second_eq_field_exec<'a>(l: &'a str) -> (r: Option<&'a str>)
    ensures
        r.deep_view() == second_eq_field(l@),
{
    proof {
        reveal_strlit("=");
        assert("="@ =~= seq!['=']);
    }
    let n: usize = l.unicode_len();
    let i: usize = match find(l, "=") {
        Some(i) => i,
        None => { return None; },
    };
    proof {
        lemma_idx_of_props(l@, "="@);
    }
    let rest: &'a str = l.substring_char(i + 1, n);
    match find(rest, "=") {
        Some(j) => {
            proof {
                lemma_idx_of_props(rest@, "="@);
            }
            Some(rest.substring_char(0, j))
        },
        None => Some(rest),
    }
}

/// What one properties line contributes: the version of a
/// `distributionUrl` entry whose URL names a Gradle distribution.
pub open spec fn gradle_line_version(l: Seq<char>) -> Option<Seq<char>> {
    let t = trim_spec(l);
    if !match_at(t, "distributionUrl"@, 0) {
        None
    } else {
        match second_eq_field(t) {
            None => None,
            Some(u) => version_from_url_spec(trim_spec(u)),
        }
    }
}

/// The first line's distribution version, scanning top to bottom.
pub open spec fn gradle_scan(ls: Seq<Seq<char>>) -> Option<Seq<char>>
    decreases ls.len(),
{
    if ls.len() == 0 {
        None
    } else if gradle_line_version(ls[0]) is Some {
        gradle_line_version(ls[0])
    } else {
        gradle_scan(ls.drop_first())
    }
}

/// The version the wrapper properties content selects, or `"latest"` when
/// the file is absent or holds no parsable distribution URL.
pub open spec fn gradle_version_spec(content: Option<Seq<char>>) -> Seq<char> {
    match content {
        None => "latest"@,
        Some(c) => match gradle_scan(line_seqs(c)) {
            Some(v) => v,
            None => "latest"@,
        },
    }
}

/// Reads the Gradle version from the wrapper properties content; `None`
/// stands for a project without that file.
pub fn get_gradle_version(content: &Option<String>) -> (r: String)
    ensures
        r@ == gradle_version_spec(content.deep_view()),
{
    let c: &String = match content {
        None => { return "latest".to_owned(); },
        Some(c) => c,
    };
    let lines = split_lines(c.as_str());
    let ghost all = line_seqs(c@);
    let m: usize = lines.len();
    let mut k: usize = 0;
    proof {
        assert(all.subrange(0, m as int) =~= all);
    }
    while k < m
        invariant
            content.deep_view() == Some(c@),
            all == line_seqs(c@),
            m == all.len(),
            lines.deep_view() == all,
            lines.len() == m,
            k <= m,
            gradle_scan(all) == gradle_scan(all.subrange(k as int, m as int)),
        decreases m - k,
    {
        let line: &str = lines[k];
        proof {
            assert(lines.deep_view()[k as int] == lines@[k as int]@);
            assert(line@ == all[k as int]);
        }
        let t: &str = trim(line);
        let ghost tail = all.subrange(k as int, m as int);
        proof {
            assert(tail[0] == all[k as int]);
            assert(tail.drop_first() =~= all.subrange(k as int + 1, m as int));
        }
        if starts_with(t, "distributionUrl") {
            match second_eq_field_exec(t) {
                Some(u) => {
                    match extract_version_from_url(trim(u)) {
                        Some(v) => {
                            proof {
                                assert(gradle_line_version(tail[0]) == Some(v@));
                                assert(gradle_scan(tail) == Some(v@));
                            }
                            return v;
                        },
                        None => {
                            proof {
                                assert(gradle_line_version(all[k as int]) is None);
                            }
                        },
                    }
                },
                None => {
                    proof {
                        assert(gradle_line_version(all[k as int]) is None);
                    }
                },
            }
        } else {
            proof {
                assert(gradle_line_version(all[k as int]) is None);
            }
        }
        k += 1;
    }
    proof {
        assert(all.subrange(m as int, m as int) =~= Seq::<Seq<char>>::empty());
    }
    "latest".to_owned()
}

} // verus!
