//! Extraction of canonical content identifiers from raw inputs: a raw
//! string is accepted when it is itself a canonical identifier, or when it
//! is a URL carrying one in its `contentId` query parameter.

use vstd::prelude::*;

verus! {

/// A lowercase hexadecimal digit.
pub open spec fn is_hex_lower(c: char) -> bool {
    ('0' <= c && c <= '9') || ('a' <= c && c <= 'f')
}

/// Position `i` of a canonical identifier holds a dash at the four group
/// boundaries and a lowercase hex digit everywhere else.
pub open spec fn id_char_ok(s: Seq<char>, i: int) -> bool {
    if i == 8 || i == 13 || i == 18 || i == 23 {
        s[i] == '-'
    } else {
        is_hex_lower(s[i])
    }
}

/// The canonical identifier pattern: 36 characters in five groups of
/// lowercase hex digits (lengths 8, 4, 4, 4, 12) separated by dashes.
pub open spec fn is_canonical_id(s: Seq<char>) -> bool {
    s.len() == 36 && forall|i: int| 0 <= i < 36 ==> #[trigger] id_char_ok(s, i)
}

/// Executable twin of `is_canonical_id`.
pub fn is_canonical_identifier(s: &str) -> (r: bool)
    ensures
        r == is_canonical_id(s@),
{
    let n = s.unicode_len();
    if n != 36 {
        return false;
    }
    let mut i: usize = 0;
    while i < 36
        invariant
            n == 36,
            s@.len() == 36,
            i <= 36,
            forall|j: int| 0 <= j < i ==> #[trigger] id_char_ok(s@, j),
        decreases 36 - i,
    {
        let c = s.get_char(i);
        if i == 8 || i == 13 || i == 18 || i == 23 {
            if c != '-' {
                proof {
                    assert(!id_char_ok(s@, i as int));
                }
                return false;
            }
        } else {
            if !(('0' <= c && c <= '9') || ('a' <= c && c <= 'f')) {
                proof {
                    assert(!id_char_ok(s@, i as int));
                }
                return false;
            }
        }
        proof {
            assert(id_char_ok(s@, i as int));
        }
        i += 1;
    }
    true
}

/// What URL parsing yields for a raw string: `None` when the string is not
/// an absolute URL, otherwise the decoded query pairs in order.
pub uninterp spec fn url_query_pairs_of(s: Seq<char>) -> Option<Seq<(Seq<char>, Seq<char>)>>;

/// Relies on `reqwest::Url::parse` (the `url` crate's parser) and
/// `Url::query_pairs`: both are pure functions of the input string alone;
/// parsing returns `Err` exactly when the string is not an absolute URL,
/// and `query_pairs` yields the percent-decoded key/value pairs of the
/// query string in order.
#[verifier::external_body]
fn url_query_pairs(s: &str) -> (r: Option<Vec<(String, String)>>)
    ensures
        r is Some <==> url_query_pairs_of(s@) is Some,
        r matches Some(pairs) ==> url_query_pairs_of(s@) == Some(
            Seq::new(pairs@.len(), |i: int| (pairs@[i].0@, pairs@[i].1@)),
        ),
{
    match reqwest::Url::parse(s) {
        Ok(url) => Some(
            url.query_pairs().map(|(k, v)| (k.into_owned(), v.into_owned())).collect(),
        ),
        Err(_) => None,
    }
}

/// The first query pair whose key is `contentId` and whose value matches
/// the canonical identifier pattern, if any.
pub open spec fn first_content_id(pairs: Seq<(Seq<char>, Seq<char>)>) -> Option<Seq<char>>
    decreases pairs.len(),
{
    if pairs.len() == 0 {
        None
    } else if pairs[0].0 == "contentId"@ && is_canonical_id(pairs[0].1) {
        Some(pairs[0].1)
    } else {
        first_content_id(pairs.drop_first())
    }
}

/// The canonical identifier named by a raw input: the input itself when it
/// matches the pattern, else the first matching `contentId` query parameter
/// of the input read as a URL, else nothing.
pub open spec fn content_id_of(input: Seq<char>) -> Option<Seq<char>> {
    if is_canonical_id(input) {
        Some(input)
    } else {
        match url_query_pairs_of(input) {
            None => None,
            Some(pairs) => first_content_id(pairs),
        }
    }
}

/// Extracts the canonical identifier a raw input names, if any.
/// Deterministic and total: absence of a match is `None`, never an error.
pub fn get_content_id(input: &str) -> (r: Option<String>)
    ensures
        r matches Some(id) ==> content_id_of(input@) == Some(id@),
        r is None ==> content_id_of(input@) is None,
{
    if is_canonical_identifier(input) {
        return Some(input.to_owned());
    }
    match url_query_pairs(input) {
        None => None,
        Some(pairs) => {
            let ghost pairs_view = Seq::new(pairs@.len(), |i: int| (pairs@[i].0@, pairs@[i].1@));
            proof {
                assert(pairs_view.skip(0) =~= pairs_view);
            }
            let mut i: usize = 0;
            while i < pairs.len()
                invariant
                    pairs_view == Seq::new(pairs@.len(), |k: int| (pairs@[k].0@, pairs@[k].1@)),
                    !is_canonical_id(input@),
                    url_query_pairs_of(input@) == Some(pairs_view),
                    i <= pairs@.len(),
                    first_content_id(pairs_view.skip(i as int)) == first_content_id(pairs_view),
                decreases pairs@.len() - i,
            {
                let key_matches = crate::strutil::str_eq(pairs[i].0.as_str(), "contentId");
                if key_matches && is_canonical_identifier(pairs[i].1.as_str()) {
                    proof {
                        assert(pairs_view[i as int] == (pairs@[i as int].0@, pairs@[i as int].1@));
                        assert(pairs_view.skip(i as int)[0] == pairs_view[i as int]);
                        assert(first_content_id(pairs_view.skip(i as int)) == Some(
                            pairs_view[i as int].1,
                        ));
                        assert(content_id_of(input@) == Some(pairs_view[i as int].1));
                        assert(pairs@[i as int].1@ == pairs_view[i as int].1);
                    }
                    let id = pairs[i].1.clone();
                    proof {
                        assert(id@ == pairs@[i as int].1@);
                    }
                    return Some(id);
                }
                proof {
                    assert(pairs_view.skip(i as int)[0] == pairs_view[i as int]);
                    assert(pairs_view.skip(i as int).drop_first() =~= pairs_view.skip(i + 1));
                }
                i += 1;
            }
            proof {
                assert(pairs_view.skip(i as int).len() == 0);
            }
            None
        },
    }
}

} // verus!
