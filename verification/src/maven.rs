//! Maven version detection from `.mvn/wrapper/maven-wrapper.properties`.

use vstd::prelude::*;

use crate::strutil::{
    find, idx_of, lemma_idx_of_props, line_seqs, match_at, split_lines, starts_with, trim,
    trim_spec,
};

verus! {

/// The version encoded in a Maven distribution URL: the path component
/// that follows `apache-maven/`.
pub open spec fn maven_version_from_url_spec(url: Seq<char>) -> Option<Seq<char>> {
    let i = idx_of(url, "apache-maven/"@);
    if i < 0 {
        None
    } else {
        let after = url.subrange(i + 13, url.len() as int);
        let j = idx_of(after, seq!['/']);
        if j < 0 {
            None
        } else {
            Some(after.subrange(0, j))
        }
    }
}

/// Extracts the version from a distribution URL such as
/// `https://repo.maven.apache.org/maven2/org/apache/maven/apache-maven/3.9.6/apache-maven-3.9.6-bin.zip`.
pub fn extract_maven_version(url: &str) -> (r: Option<String>)
    ensures
        r.deep_view() == maven_version_from_url_spec(url@),
{
    proof {
        reveal_strlit("apache-maven/");
        reveal_strlit("/");
        assert("/"@ =~= seq!['/']);
    }
    let n: usize = url.unicode_len();
    let i: usize = match find(url, "apache-maven/") {
        Some(i) => i,
        None => { return None; },
    };
    proof {
        lemma_idx_of_props(url@, "apache-maven/"@);
    }
    let after: &str = url.substring_char(i + 13, n);
    let j: usize = match find(after, "/") {
        Some(j) => j,
        None => { return None; },
    };
    proof {
        lemma_idx_of_props(after@, "/"@);
    }
    Some(after.substring_char(0, j).to_owned())
}

/// What one properties line contributes: the version of a
/// `distributionUrl=` entry naming a Maven distribution.
pub open spec fn maven_line_version(l: Seq<char>) -> Option<Seq<char>> {
    let t = trim_spec(l);
    if !match_at(t, "distributionUrl="@, 0) {
        None
    } else {
        maven_version_from_url_spec(t.subrange(16, t.len() as int))
    }
}

/// The first line's distribution version, scanning top to bottom.
pub open spec fn maven_scan(ls: Seq<Seq<char>>) -> Option<Seq<char>>
    decreases ls.len(),
{
    if ls.len() == 0 {
        None
    } else if maven_line_version(ls[0]) is Some {
        maven_line_version(ls[0])
    } else {
        maven_scan(ls.drop_first())
    }
}

/// The version the wrapper properties content selects, or `"latest"` when
/// the file is absent or holds no parsable distribution URL.
pub open spec fn maven_version_spec(content: Option<Seq<char>>) -> Seq<char> {
    match content {
        None => "latest"@,
        Some(c) => match maven_scan(line_seqs(c)) {
            Some(v) => v,
            None => "latest"@,
        },
    }
}

/// Reads the Maven version from the wrapper properties content; `None`
/// stands for a project without that file.
pub fn get_maven_version(content: &Option<String>) -> (r: String)
    ensures
        r@ == maven_version_spec(content.deep_view()),
{
    let c: &String = match content {
        None => { return "latest".to_owned(); },
        Some(c) => c,
    };
    let lines = split_lines(c.as_str());
    let ghost all = line_seqs(c@);
    let m: usize = lines.len();
    let mut k: usize = 0;
    proof {
        assert(all.subrange(0, m as int) =~= all);
        reveal_strlit("distributionUrl=");
    }
    while k < m
        invariant
            content.deep_view() == Some(c@),
            all == line_seqs(c@),
            m == all.len(),
            lines.deep_view() == all,
            lines.len() == m,
            k <= m,
            "distributionUrl="@.len() == 16,
            maven_scan(all) == maven_scan(all.subrange(k as int, m as int)),
        decreases m - k,
    {
        let line: &str = lines[k];
        proof {
            assert(lines.deep_view()[k as int] == lines@[k as int]@);
            assert(line@ == all[k as int]);
        }
        let t: &str = trim(line);
        let ghost tail = all.subrange(k as int, m as int);
        proof {
            assert(tail[0] == all[k as int]);
            assert(tail.drop_first() =~= all.subrange(k as int + 1, m as int));
        }
        if starts_with(t, "distributionUrl=") {
            let url: &str = t.substring_char(16, t.unicode_len());
            match extract_maven_version(url) {
                Some(v) => {
                    proof {
                        assert(maven_line_version(tail[0]) == Some(v@));
                        assert(maven_scan(tail) == Some(v@));
                    }
                    return v;
                },
                None => {
                    proof {
                        assert(maven_line_version(all[k as int]) is None);
                    }
                },
            }
        } else {
            proof {
                assert(maven_line_version(all[k as int]) is None);
            }
        }
        k += 1;
    }
    proof {
        assert(all.subrange(m as int, m as int) =~= Seq::<Seq<char>>::empty());
    }
    "latest".to_owned()
}

} // verus!
