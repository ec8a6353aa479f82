//! .NET SDK version detection from `global.json` content.
//!
//! The `"sdk"` object's `"version"` entry is located by plain text search,
//! which handles both formatted and minified JSON (without nested objects
//! inside `"sdk"`).

use vstd::prelude::*;

use crate::strutil::{find, idx_of, lemma_idx_of_props, match_at};

verus! {

/// The SDK version named inside `content`'s `"sdk"` object: the text
/// between the quotes that follow the colon of its `"version"` entry.
pub open spec fn extract_sdk_version_spec(c: Seq<char>) -> Option<Seq<char>> {
    let i1 = idx_of(c, "\"sdk\""@);
    if i1 < 0 {
        None
    } else {
        let after_sdk = c.subrange(i1, c.len() as int);
        let i2 = idx_of(after_sdk, seq!['{']);
        if i2 < 0 {
            None
        } else {
            let sdk_content = after_sdk.subrange(i2, after_sdk.len() as int);
            let i3 = idx_of(sdk_content, seq!['}']);
            if i3 < 0 {
                None
            } else {
                let sdk_object = sdk_content.subrange(0, i3);
                let i4 = idx_of(sdk_object, "\"version\""@);
                if i4 < 0 {
                    None
                } else {
                    let after_version = sdk_object.subrange(i4, sdk_object.len() as int);
                    let i5 = idx_of(after_version, seq![':']);
                    if i5 < 0 {
                        None
                    } else {
                        let after_colon = after_version.subrange(
                            i5 + 1,
                            after_version.len() as int,
                        );
                        let i6 = idx_of(after_colon, seq!['"']);
                        if i6 < 0 {
                            None
                        } else {
                            let after_quote = after_colon.subrange(
                                i6 + 1,
                                after_colon.len() as int,
                            );
                            let i7 = idx_of(after_quote, seq!['"']);
                            if i7 < 0 {
                                None
                            } else {
                                Some(after_quote.subrange(0, i7))
                            }
                        }
                    }
                }
            }
        }
    }
}

/// Extracts the SDK version from `global.json` content.
pub fn extract_sdk_version(content: &str) -> (r: Option<String>)
    ensures
        r.deep_view() == extract_sdk_version_spec(content@),
{
    proof {
        reveal_strlit("{");
        reveal_strlit("}");
        reveal_strlit(":");
        reveal_strlit("\"");
        assert("{"@ =~= seq!['{']);
        assert("}"@ =~= seq!['}']);
        assert(":"@ =~= seq![':']);
        assert("\""@ =~= seq!['"']);
    }
    let n: usize = content.unicode_len();
    let i1: usize = match find(content, "\"sdk\"") {
        Some(i) => i,
        None => { return None; },
    };
    proof {
        lemma_idx_of_props(content@, "\"sdk\""@);
    }
    let after_sdk: &str = content.substring_char(i1, n);
    let n2: usize = n - i1;
    let i2: usize = match find(after_sdk, "{") {
        Some(i) => i,
        None => { return None; },
    };
    proof {
        lemma_idx_of_props(after_sdk@, "{"@);
        assert(idx_of(after_sdk@, seq!['{']) == i2 as int);
    }
    let sdk_content: &str = after_sdk.substring_char(i2, n2);
    let n3: usize = n2 - i2;
    let i3: usize = match find(sdk_content, "}") {
        Some(i) => i,
        None => { return None; },
    };
    proof {
        lemma_idx_of_props(sdk_content@, "}"@);
        assert(idx_of(sdk_content@, seq!['}']) == i3 as int);
    }
    let sdk_object: &str = sdk_content.substring_char(0, i3);
    let i4: usize = match find(sdk_object, "\"version\"") {
        Some(i) => i,
        None => { return None; },
    };
    proof {
        lemma_idx_of_props(sdk_object@, "\"version\""@);
    }
    let after_version: &str = sdk_object.substring_char(i4, i3);
    let n5: usize = i3 - i4;
    let i5: usize = match find(after_version, ":") {
        Some(i) => i,
        None => { return None; },
    };
    proof {
        lemma_idx_of_props(after_version@, ":"@);
        assert(idx_of(after_version@, seq![':']) == i5 as int);
    }
    let after_colon: &str = after_version.substring_char(i5 + 1, n5);
    let n6: usize = n5 - i5 - 1;
    let i6: usize = match find(after_colon, "\"") {
        Some(i) => i,
        None => { return None; },
    };
    proof {
        lemma_idx_of_props(after_colon@, "\""@);
        assert(idx_of(after_colon@, seq!['"']) == i6 as int);
    }
    let after_quote: &str = after_colon.substring_char(i6 + 1, n6);
    let i7: usize = match find(after_quote, "\"") {
        Some(i) => i,
        None => { return None; },
    };
    proof {
        lemma_idx_of_props(after_quote@, "\""@);
        assert(idx_of(after_quote@, seq!['"']) == i7 as int);
    }
    Some(after_quote.substring_char(0, i7).to_owned())
}

/// The version `global.json` content selects, or `"latest"` when the file
/// is absent or names none.
pub open spec fn dotnet_version_spec(content: Option<Seq<char>>) -> Seq<char> {
    match content {
        None => "latest"@,
        Some(c) => match extract_sdk_version_spec(c) {
            Some(v) => v,
            None => "latest"@,
        },
    }
}

/// Reads the .NET SDK version from `global.json` content; `None` stands
/// for a project without that file.
pub fn get_dotnet_version(content: &Option<String>) -> (r: String)
    ensures
        r@ == dotnet_version_spec(content.deep_view()),
{
    match content {
        None => "latest".to_owned(),
        Some(c) => match extract_sdk_version(c.as_str()) {
            Some(v) => v,
            None => "latest".to_owned(),
        },
    }
}

} // verus!
