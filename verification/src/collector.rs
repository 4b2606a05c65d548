//! Collection of download items from raw inputs: extraction, first-seen
//! deduplication, and the report of accepted, duplicate and invalid
//! inputs; also the filtering of lines read from an input file.

use vstd::prelude::*;
use crate::identifier::{content_id_of, get_content_id};

verus! {

/// One unique download target: the canonical identifier and the raw input
/// it was first seen in (kept only for reporting).
#[derive(Debug, Clone)]
pub struct DownloadItem {
    /// The canonical identifier.
    pub identifier: String,
    /// The raw input the identifier was first extracted from.
    pub original_input: String,
}

impl View for DownloadItem {
    type V = (Seq<char>, Seq<char>);

    open spec fn view(&self) -> (Seq<char>, Seq<char>) {
        (self.identifier@, self.original_input@)
    }
}

impl DeepView for DownloadItem {
    type V = (Seq<char>, Seq<char>);

    open spec fn deep_view(&self) -> (Seq<char>, Seq<char>) {
        self.view()
    }
}

/// The mathematical shape of a collection run: accepted items in
/// first-seen order, later duplicates, and inputs that failed extraction.
#[verifier::ext_equal]
pub ghost struct CollectModel {
    pub items: Seq<(Seq<char>, Seq<char>)>,
    pub duplicates: Seq<Seq<char>>,
    pub invalid: Seq<Seq<char>>,
}

/// Some accepted item already carries this identifier.
pub open spec fn has_id(items: Seq<(Seq<char>, Seq<char>)>, id: Seq<char>) -> bool {
    exists|j: int| 0 <= j < items.len() && items[j].0 == id
}

/// What collecting the inputs in order comes to: each input either yields
/// a new item, a duplicate record, or an invalid record.
pub open spec fn collect_spec(inputs: Seq<Seq<char>>) -> CollectModel
    decreases inputs.len(),
{
    if inputs.len() == 0 {
        CollectModel { items: Seq::empty(), duplicates: Seq::empty(), invalid: Seq::empty() }
    } else {
        let prev = collect_spec(inputs.drop_last());
        let raw = inputs.last();
        match content_id_of(raw) {
            None => CollectModel {
                items: prev.items,
                duplicates: prev.duplicates,
                invalid: prev.invalid.push(raw),
            },
            Some(id) => if has_id(prev.items, id) {
                CollectModel {
                    items: prev.items,
                    duplicates: prev.duplicates.push(raw),
                    invalid: prev.invalid,
                }
            } else {
                CollectModel {
                    items: prev.items.push((id, raw)),
                    duplicates: prev.duplicates,
                    invalid: prev.invalid,
                }
            },
        }
    }
}

/// Why collection failed the whole run.
#[derive(Debug, Clone, Copy, PartialEq, Eq, Structural)]
pub enum CollectError {
    /// No input yielded a valid identifier.
    NoValidItems,
}

/// The result of a collection run.
#[derive(Debug)]
pub struct CollectionReport {
    /// Accepted items, one per unique identifier, in first-seen order.
    pub items: Vec<DownloadItem>,
    /// Raw inputs dropped as later duplicates.
    pub duplicates: Vec<String>,
    /// Raw inputs that failed identifier extraction.
    pub invalid: Vec<String>,
}

impl View for CollectionReport {
    type V = CollectModel;

    open spec fn view(&self) -> CollectModel {
        CollectModel {
            items: self.items.deep_view(),
            duplicates: self.duplicates.deep_view(),
            invalid: self.invalid.deep_view(),
        }
    }
}

/// Collects download items from the raw inputs of all sources, in order:
/// extracts identifiers, keeps the first occurrence of each, records later
/// occurrences as duplicates and failed extractions as invalid. Fails only
/// when no valid item at all remains.
pub fn collect_download_items(inputs: &Vec<String>) -> (r: Result<CollectionReport, CollectError>)
    ensures
        match r {
            Ok(rep) => rep@ == collect_spec(inputs.deep_view()) && rep@.items.len() > 0,
            Err(e) => e == CollectError::NoValidItems && collect_spec(
                inputs.deep_view(),
            ).items.len() == 0,
        },
{
    let ghost all = inputs.deep_view();
    let mut items: Vec<DownloadItem> = Vec::new();
    let mut duplicates: Vec<String> = Vec::new();
    let mut invalid: Vec<String> = Vec::new();
    proof {
        assert(all.take(0) =~= Seq::<Seq<char>>::empty());
        assert(collect_spec(all.take(0)) =~= CollectModel {
            items: items.deep_view(),
            duplicates: duplicates.deep_view(),
            invalid: invalid.deep_view(),
        });
    }
    let n = inputs.len();
    let mut i: usize = 0;
    while i < n
        invariant
            all == inputs.deep_view(),
            n == inputs@.len(),
            all.len() == n,
            i <= n,
            collect_spec(all.take(i as int)) == (CollectModel {
                items: items.deep_view(),
                duplicates: duplicates.deep_view(),
                invalid: invalid.deep_view(),
            }),
        decreases n - i,
    {
        let raw = &inputs[i];
        proof {
            assert(all.take(i + 1).drop_last() =~= all.take(i as int));
            assert(all.take(i + 1).last() == all[i as int]);
            assert(all[i as int] == raw@);
        }
        match get_content_id(raw.as_str()) {
            None => {
                invalid.push(raw.clone());
            },
            Some(id) => {
                let mut found = false;
                let m = items.len();
                let mut j: usize = 0;
                while j < m && !found
                    invariant
                        m == items@.len(),
                        j <= m,
                        !found ==> forall|k: int| 0 <= k < j ==> items@[k].identifier@ != id@,
                        found ==> has_id(items.deep_view(), id@),
                    decreases m - j,
                {
                    if items[j].identifier.eq(&id) {
                        found = true;
                        proof {
                            assert(items.deep_view()[j as int].0 == id@);
                        }
                    }
                    j += 1;
                }
                proof {
                    if !found {
                        assert(forall|k: int|
                            0 <= k < items.deep_view().len() ==> items.deep_view()[k].0
                                == items@[k].identifier@);
                        assert(!has_id(items.deep_view(), id@));
                    }
                }
                if found {
                    duplicates.push(raw.clone());
                } else {
                    items.push(DownloadItem { identifier: id, original_input: raw.clone() });
                }
            },
        }
        proof {
            assert(collect_spec(all.take(i + 1)) =~= CollectModel {
                items: items.deep_view(),
                duplicates: duplicates.deep_view(),
                invalid: invalid.deep_view(),
            });
        }
        i += 1;
    }
    proof {
        assert(all.take(n as int) =~= all);
    }
    if items.len() == 0 {
        Err(CollectError::NoValidItems)
    } else {
        Ok(CollectionReport { items, duplicates, invalid })
    }
}

/// Whether a character has the Unicode whitespace property.
pub uninterp spec fn is_unicode_whitespace(c: char) -> bool;

/// Relies on `char::is_whitespace`: whether a character counts as Unicode
/// whitespace depends on the character alone.
#[verifier::external_body]
fn is_whitespace_char(c: char) -> (r: bool)
    ensures
        r == is_unicode_whitespace(c),
{
    c.is_whitespace()
}

/// `s` with leading whitespace removed.
pub open spec fn trim_start_spec(s: Seq<char>) -> Seq<char>
    decreases s.len(),
{
    if s.len() > 0 && is_unicode_whitespace(s[0]) {
        trim_start_spec(s.drop_first())
    } else {
        s
    }
}

/// `s` with trailing whitespace removed.
pub open spec fn trim_end_spec(s: Seq<char>) -> Seq<char>
    decreases s.len(),
{
    if s.len() > 0 && is_unicode_whitespace(s.last()) {
        trim_end_spec(s.drop_last())
    } else {
        s
    }
}

/// `s` with leading and trailing whitespace removed.
pub open spec fn trimmed(s: Seq<char>) -> Seq<char> {
    trim_end_spec(trim_start_spec(s))
}

/// Removes leading and trailing whitespace.
pub fn trim_str(s: &str) -> (r: String)
    ensures
        r@ == trimmed(s@),
{
    let n = s.unicode_len();
    let mut start: usize = 0;
    proof {
        assert(s@.skip(0) =~= s@);
    }
    while start < n && is_whitespace_char(s.get_char(start))
        invariant
            n == s@.len(),
            start <= n,
            trim_start_spec(s@) == trim_start_spec(s@.skip(start as int)),
        decreases n - start,
    {
        proof {
            assert(s@.skip(start as int).drop_first() =~= s@.skip(start + 1));
        }
        start += 1;
    }
    proof {
        assert(trim_start_spec(s@) == s@.skip(start as int));
    }
    let ghost t = s@.skip(start as int);
    let mut end: usize = n;
    proof {
        assert(t.take(n - start) =~= t);
    }
    while end > start && is_whitespace_char(s.get_char(end - 1))
        invariant
            n == s@.len(),
            start <= end <= n,
            t == s@.skip(start as int),
            trim_end_spec(t) == trim_end_spec(t.take(end - start)),
        decreases end,
    {
        proof {
            assert(t.take(end - start).last() == s@[end - 1]);
            assert(t.take(end - start).drop_last() =~= t.take(end - 1 - start));
        }
        end -= 1;
    }
    proof {
        if end > start {
            assert(t.take(end - start).last() == s@[end - 1]);
        }
        assert(trim_end_spec(t.take(end - start)) == t.take(end - start));
        assert(t.take(end - start) =~= s@.subrange(start as int, end as int));
    }
    s.substring_char(start, end).to_owned()
}

/// A line survives filtering when, trimmed, it is neither empty nor a
/// comment starting with `#`.
pub open spec fn keep_line(l: Seq<char>) -> bool {
    trimmed(l).len() > 0 && trimmed(l)[0] != '#'
}

/// The trimmed forms of the lines that survive filtering, in order.
pub open spec fn filtered_lines(lines: Seq<Seq<char>>) -> Seq<Seq<char>>
    decreases lines.len(),
{
    if lines.len() == 0 {
        Seq::empty()
    } else {
        let prev = filtered_lines(lines.drop_last());
        if keep_line(lines.last()) {
            prev.push(trimmed(lines.last()))
        } else {
            prev
        }
    }
}

/// Trims each line of an input file and drops blank lines and lines
/// starting with `#`.
pub fn filter_input_lines(lines: &Vec<String>) -> (r: Vec<String>)
    ensures
        r.deep_view() == filtered_lines(lines.deep_view()),
{
    let ghost all = lines.deep_view();
    let mut out: Vec<String> = Vec::new();
    proof {
        assert(all.take(0) =~= Seq::<Seq<char>>::empty());
        assert(out.deep_view() =~= filtered_lines(all.take(0)));
    }
    let n = lines.len();
    let mut i: usize = 0;
    while i < n
        invariant
            all == lines.deep_view(),
            n == lines@.len(),
            all.len() == n,
            i <= n,
            out.deep_view() == filtered_lines(all.take(i as int)),
        decreases n - i,
    {
        proof {
            assert(all.take(i + 1).drop_last() =~= all.take(i as int));
            assert(all.take(i + 1).last() == all[i as int]);
            assert(all[i as int] == lines@[i as int]@);
        }
        let t = trim_str(lines[i].as_str());
        let keep = t.as_str().unicode_len() > 0 && t.as_str().get_char(0) != '#';
        if keep {
            out.push(t);
        }
        proof {
            assert(out.deep_view() =~= filtered_lines(all.take(i + 1)));
        }
        i += 1;
    }
    proof {
        assert(all.take(n as int) =~= all);
    }
    out
}

/// Law: identifiers of accepted items are pairwise distinct, and every
/// input whose extraction succeeds is represented by an accepted item — an
/// identifier appearing more than once yields exactly one item.
pub proof fn lemma_collector_dedups(inputs: Seq<Seq<char>>)
    ensures
        forall|i: int, j: int|
            0 <= i < j < collect_spec(inputs).items.len() ==> collect_spec(inputs).items[i].0
                != collect_spec(inputs).items[j].0,
        forall|k: int|
            0 <= k < inputs.len() && content_id_of(inputs[k]) is Some ==> has_id(
                collect_spec(inputs).items,
                content_id_of(inputs[k])->Some_0,
            ),
    decreases inputs.len(),
{
    if inputs.len() > 0 {
        let prefix = inputs.drop_last();
        lemma_collector_dedups(prefix);
        let prev = collect_spec(prefix);
        let cur = collect_spec(inputs);
        assert(forall|k: int| 0 <= k < prefix.len() ==> prefix[k] == inputs[k]);
        assert forall|k: int|
            0 <= k < inputs.len() && content_id_of(inputs[k]) is Some implies has_id(
            cur.items,
            content_id_of(inputs[k])->Some_0,
        ) by {
            let id = content_id_of(inputs[k])->Some_0;
            if k < inputs.len() - 1 {
                assert(has_id(prev.items, id));
                let j = choose|j: int| 0 <= j < prev.items.len() && prev.items[j].0 == id;
                assert(cur.items[j].0 == id);
            } else {
                match content_id_of(inputs.last()) {
                    Some(last_id) => {
                        if has_id(prev.items, last_id) {
                            let j = choose|j: int|
                                0 <= j < prev.items.len() && prev.items[j].0 == last_id;
                            assert(cur.items[j].0 == last_id);
                        } else {
                            assert(cur.items.last().0 == last_id);
                        }
                    },
                    None => {},
                }
            }
        }
    }
}

/// Law: every input is accounted for exactly once, as an item, a
/// duplicate, or an invalid input.
pub proof fn lemma_collector_accounts(inputs: Seq<Seq<char>>)
    ensures
        collect_spec(inputs).items.len() + collect_spec(inputs).duplicates.len() + collect_spec(
            inputs,
        ).invalid.len() == inputs.len(),
    decreases inputs.len(),
{
    if inputs.len() > 0 {
        lemma_collector_accounts(inputs.drop_last());
    }
}

/// Law: inputs that fail extraction are excluded — every recorded invalid
/// input indeed fails extraction — and the run succeeds exactly when at
/// least one input yields a valid identifier.
pub proof fn lemma_collector_excludes_invalid(inputs: Seq<Seq<char>>)
    ensures
        forall|j: int|
            0 <= j < collect_spec(inputs).invalid.len() ==> content_id_of(
                #[trigger] collect_spec(inputs).invalid[j],
            ) is None,
        (collect_spec(inputs).items.len() > 0) <==> (exists|k: int|
            0 <= k < inputs.len() && content_id_of(#[trigger] inputs[k]) is Some),
    decreases inputs.len(),
{
    if inputs.len() > 0 {
        let prefix = inputs.drop_last();
        lemma_collector_excludes_invalid(prefix);
        let prev = collect_spec(prefix);
        let cur = collect_spec(inputs);
        assert(forall|k: int| 0 <= k < prefix.len() ==> prefix[k] == inputs[k]);
        if cur.items.len() > 0 {
            if prev.items.len() > 0 {
                let k = choose|k: int|
                    0 <= k < prefix.len() && content_id_of(#[trigger] prefix[k]) is Some;
                assert(content_id_of(inputs[k]) is Some);
            } else {
                assert(content_id_of(inputs.last()) is Some);
                assert(content_id_of(inputs[inputs.len() - 1]) is Some);
            }
        }
        if exists|k: int| 0 <= k < inputs.len() && content_id_of(#[trigger] inputs[k]) is Some {
            let k = choose|k: int|
                0 <= k < inputs.len() && content_id_of(#[trigger] inputs[k]) is Some;
            if k < inputs.len() - 1 {
                assert(content_id_of(prefix[k]) is Some);
                assert(prev.items.len() > 0);
                assert(cur.items.len() >= prev.items.len());
            } else {
                match content_id_of(inputs.last()) {
                    Some(id) => {
                        if has_id(prev.items, id) {
                            let j = choose|j: int|
                                0 <= j < prev.items.len() && prev.items[j].0 == id;
                            assert(prev.items.len() > 0);
                        }
                    },
                    None => {},
                }
            }
        }
    }
}

} // verus!
