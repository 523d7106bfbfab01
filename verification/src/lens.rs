//! Lens-correction selection: the lens picked from the catalog, and the
//! maker and model lists offered for manual selection.
use vstd::prelude::*;
use vstd::string::*;
use crate::text::{str_trim, trim};

verus! {

/// Unicode lower-case mapping of a text (`str::to_lowercase`).
pub uninterp spec fn lowercase(s: Seq<char>) -> Seq<char>;

/// The Unicode lower-case form of a text (`str::to_lowercase`).
#[verifier::external_body]
fn str_to_lowercase(s: &str) -> (lower: String)
    ensures
        lower@ == lowercase(s@),
{
    s.to_lowercase()
}

/// Code point of a character with ASCII capitals folded to lower case.
pub open spec fn ascii_fold(c: char) -> u32 {
    if 65 <= (c as u32) && (c as u32) <= 90 {
        ((c as u32) + 32) as u32
    } else {
        c as u32
    }
}

/// Equality of two texts when ASCII letters are compared without case
/// (`str::eq_ignore_ascii_case`).
pub open spec fn eq_ignore_ascii_case(a: Seq<char>, b: Seq<char>) -> bool {
    a.len() == b.len() && forall|i: int| 0 <= i < a.len() ==> #[trigger] ascii_fold(a[i]) == ascii_fold(b[i])
}

/// Lexicographic order of texts by code point, the order of `str`'s `Ord`.
pub open spec fn text_le(a: Seq<char>, b: Seq<char>) -> bool
    decreases a.len(),
{
    if a.len() == 0 {
        true
    } else if b.len() == 0 {
        false
    } else if (a[0] as u32) != (b[0] as u32) {
        (a[0] as u32) < (b[0] as u32)
    } else {
        text_le(a.drop_first(), b.drop_first())
    }
}

fn fold_code(c: char) -> (code: u32)
    ensures
        code == ascii_fold(c),
{
    let code = c as u32;
    if 65 <= code && code <= 90 {
        code + 32
    } else {
        code
    }
}

/// Whether two texts are equal when ASCII letters are compared without case.
pub fn text_eq_ignore_ascii_case(a: &str, b: &str) -> (same: bool)
    ensures
        same == eq_ignore_ascii_case(a@, b@),
{
    let n = a.unicode_len();
    if n != b.unicode_len() {
        return false;
    }
    let mut i: usize = 0;
    while i < n
        invariant
            n == a@.len(),
            n == b@.len(),
            i <= n,
            forall|k: int| 0 <= k < i ==> #[trigger] ascii_fold(a@[k]) == ascii_fold(b@[k]),
        decreases n - i,
    {
        if fold_code(a.get_char(i)) != fold_code(b.get_char(i)) {
            return false;
        }
        i += 1;
    }
    true
}

/// Whether `a` sorts before or together with `b`.
fn text_le_exec(a: &str, b: &str) -> (le: bool)
    ensures
        le == text_le(a@, b@),
{
    let la = a.unicode_len();
    let lb = b.unicode_len();
    let mut i: usize = 0;
    assert(a@.subrange(0, la as int) =~= a@);
    assert(b@.subrange(0, lb as int) =~= b@);
    while i < la && i < lb
        invariant
            la == a@.len(),
            lb == b@.len(),
            i <= la,
            i <= lb,
            text_le(a@, b@) == text_le(a@.subrange(i as int, la as int), b@.subrange(i as int, lb as int)),
        decreases la - i,
    {
        let x = a.get_char(i) as u32;
        let y = b.get_char(i) as u32;
        if x != y {
            return x < y;
        }
        proof {
            assert(a@.subrange(i as int, la as int).drop_first() =~= a@.subrange(i + 1, la as int));
            assert(b@.subrange(i as int, lb as int).drop_first() =~= b@.subrange(i + 1, lb as int));
        }
        i += 1;
    }
    i == la
}

/// Inserts `entry` after every entry whose key sorts before or with its
/// key: one step of a stable sort by key.
pub open spec fn insert_by_key(
    sorted: Seq<(Seq<char>, Seq<char>)>,
    entry: (Seq<char>, Seq<char>),
) -> Seq<(Seq<char>, Seq<char>)>
    decreases sorted.len(),
{
    if sorted.len() == 0 {
        seq![entry]
    } else if text_le(sorted.last().0, entry.0) {
        sorted.push(entry)
    } else {
        insert_by_key(sorted.drop_last(), entry).push(sorted.last())
    }
}

/// The (key, text) entries stably sorted by key (`sort_by_key`).
pub open spec fn sort_by_key(entries: Seq<(Seq<char>, Seq<char>)>) -> Seq<(Seq<char>, Seq<char>)>
    decreases entries.len(),
{
    if entries.len() == 0 {
        entries
    } else {
        insert_by_key(sort_by_key(entries.drop_last()), entries.last())
    }
}

/// The items with each entry dropped that equals, ignoring ASCII case, the
/// last entry kept before it (`dedup_by` with `eq_ignore_ascii_case`).
pub open spec fn dedup_ignoring_ascii_case(items: Seq<Seq<char>>) -> Seq<Seq<char>>
    decreases items.len(),
{
    if items.len() == 0 {
        items
    } else {
        let kept = dedup_ignoring_ascii_case(items.drop_last());
        if kept.len() > 0 && eq_ignore_ascii_case(items.last(), kept.last()) {
            kept
        } else {
            kept.push(items.last())
        }
    }
}

/// The texts of (key, text) entries.
pub open spec fn entry_texts(entries: Seq<(Seq<char>, Seq<char>)>) -> Seq<Seq<char>> {
    entries.map_values(|entry: (Seq<char>, Seq<char>)| entry.1)
}

/// Each text paired with its lower-case form as its key.
pub open spec fn lowercase_keyed(items: Seq<Seq<char>>) -> Seq<(Seq<char>, Seq<char>)> {
    items.map_values(|item: Seq<char>| (lowercase(item), item))
}

/// The list offered for selection from (key, text) entries: the texts
/// sorted by key, then with case-insensitive neighbours merged.
pub open spec fn selection_list_by_key(entries: Seq<(Seq<char>, Seq<char>)>) -> Seq<Seq<char>> {
    dedup_ignoring_ascii_case(entry_texts(sort_by_key(entries)))
}

/// The list offered for selection: sorted without case, then with
/// case-insensitive neighbours merged.
pub open spec fn selection_list(items: Seq<Seq<char>>) -> Seq<Seq<char>> {
    selection_list_by_key(lowercase_keyed(items))
}

pub open spec fn texts(items: Seq<String>) -> Seq<Seq<char>> {
    items.map_values(|s: String| s@)
}

pub open spec fn entry_views(entries: Seq<(String, String)>) -> Seq<(Seq<char>, Seq<char>)> {
    entries.map_values(|entry: (String, String)| (entry.0@, entry.1@))
}

proof fn lemma_insert_at(sorted: Seq<(Seq<char>, Seq<char>)>, entry: (Seq<char>, Seq<char>), j: int)
    requires
        0 <= j <= sorted.len(),
        forall|k: int| j <= k < sorted.len() ==> !text_le((#[trigger] sorted[k]).0, entry.0),
        j > 0 ==> text_le(sorted[j - 1].0, entry.0),
    ensures
        insert_by_key(sorted, entry) == sorted.insert(j, entry),
    decreases sorted.len(),
{
    if sorted.len() == 0 {
        assert(sorted.insert(j, entry) =~= seq![entry]);
    } else if j == sorted.len() {
        assert(sorted.insert(j, entry) =~= sorted.push(entry));
    } else {
        let earlier = sorted.drop_last();
        assert(!text_le(sorted[sorted.len() - 1].0, entry.0));
        assert forall|k: int| j <= k < earlier.len() implies !text_le(
            (#[trigger] earlier[k]).0,
            entry.0,
        ) by {
            assert(earlier[k] == sorted[k]);
        }
        if j > 0 {
            assert(earlier[j - 1] == sorted[j - 1]);
        }
        lemma_insert_at(earlier, entry, j);
        assert(earlier.insert(j, entry).push(sorted.last()) =~= sorted.insert(j, entry));
    }
}

/// The texts of `entries` stably sorted by their keys, with each text
/// dropped that equals the text kept before it ignoring ASCII case. The
/// keys are whatever the caller orders by (the lower-case forms, for the
/// lens lists).
pub fn selection_list_from_keys(entries: &Vec<(String, String)>) -> (list: Vec<String>)
    ensures
        texts(list@) == selection_list_by_key(entry_views(entries@)),
{
    let ghost views = entry_views(entries@);
    let mut sorted: Vec<(String, String)> = Vec::new();
    let mut i: usize = 0;
    while i < entries.len()
        invariant
            views == entry_views(entries@),
            i <= entries.len(),
            entry_views(sorted@) == sort_by_key(views.subrange(0, i as int)),
        decreases entries.len() - i,
    {
        let key = entries[i].0.clone();
        let value = entries[i].1.clone();
        let ghost before = sorted@;
        let mut j: usize = sorted.len();
        while j > 0 && !text_le_exec(sorted[j - 1].0.as_str(), key.as_str())
            invariant
                sorted@ == before,
                j <= sorted.len(),
                forall|k: int| j <= k < sorted@.len() ==> !text_le((#[trigger] sorted@[k]).0@, key@),
            decreases j,
        {
            j -= 1;
        }
        proof {
            let vals = entry_views(before);
            assert forall|k: int| j <= k < vals.len() implies !text_le(
                (#[trigger] vals[k]).0,
                key@,
            ) by {
                assert(vals[k].0 == before[k].0@);
            }
            if j > 0 {
                assert(vals[j - 1].0 == before[j - 1].0@);
            }
            lemma_insert_at(vals, (key@, value@), j as int);
            assert(views.subrange(0, i + 1).drop_last() =~= views.subrange(0, i as int));
            assert(views[i as int] == (key@, value@));
        }
        sorted.insert(j, (key, value));
        proof {
            assert(entry_views(sorted@) =~= entry_views(before).insert(j as int, (key@, value@)));
        }
        i += 1;
    }
    proof {
        assert(views.subrange(0, entries.len() as int) =~= views);
    }
    let ghost ordered = entry_texts(entry_views(sorted@));
    let mut list: Vec<String> = Vec::new();
    let mut i: usize = 0;
    while i < sorted.len()
        invariant
            ordered == entry_texts(entry_views(sorted@)),
            i <= sorted.len(),
            texts(list@) == dedup_ignoring_ascii_case(ordered.subrange(0, i as int)),
        decreases sorted.len() - i,
    {
        let keep = if list.len() == 0 {
            true
        } else {
            !text_eq_ignore_ascii_case(sorted[i].1.as_str(), list[list.len() - 1].as_str())
        };
        proof {
            assert(ordered.subrange(0, i + 1).drop_last() =~= ordered.subrange(0, i as int));
            assert(ordered[i as int] == sorted@[i as int].1@);
        }
        if keep {
            let ghost before = list@;
            list.push(sorted[i].1.clone());
            proof {
                assert(texts(list@) =~= texts(before).push(sorted@[i as int].1@));
            }
        }
        i += 1;
    }
    proof {
        assert(ordered.subrange(0, sorted.len() as int) =~= ordered);
    }
    list
}

/// Sorts without case and merges case-insensitive neighbours.
fn sorted_selection_list(items: &Vec<String>) -> (list: Vec<String>)
    ensures
        texts(list@) == selection_list(texts(items@)),
{
    let ghost views = texts(items@);
    let mut entries: Vec<(String, String)> = Vec::new();
    let mut i: usize = 0;
    while i < items.len()
        invariant
            views == texts(items@),
            i <= items.len(),
            entry_views(entries@) == lowercase_keyed(views.subrange(0, i as int)),
        decreases items.len() - i,
    {
        let ghost before = entries@;
        let key = str_to_lowercase(items[i].as_str());
        entries.push((key, items[i].clone()));
        proof {
            assert(views[i as int] == items@[i as int]@);
            assert(entry_views(entries@) =~= entry_views(before).push(
                (lowercase(views[i as int]), views[i as int]),
            ));
            assert(lowercase_keyed(views.subrange(0, i + 1)) =~= lowercase_keyed(
                views.subrange(0, i as int),
            ).push((lowercase(views[i as int]), views[i as int])));
        }
        i += 1;
    }
    proof {
        assert(views.subrange(0, items.len() as int) =~= views);
    }
    selection_list_from_keys(&entries)
}

/// Whether (key, text) entries are in order of their keys.
pub open spec fn sorted_by_key(entries: Seq<(Seq<char>, Seq<char>)>) -> bool {
    forall|i: int, j: int|
        0 <= i < j < entries.len() ==> text_le((#[trigger] entries[i]).0, (#[trigger] entries[j]).0)
}

proof fn lemma_insert_sorted(sorted: Seq<(Seq<char>, Seq<char>)>, entry: (Seq<char>, Seq<char>))
    requires
        sorted_by_key(sorted),
    ensures
        sorted_by_key(insert_by_key(sorted, entry)),
        insert_by_key(sorted, entry).to_multiset() =~= sorted.to_multiset().insert(entry),
    decreases sorted.len(),
{
    broadcast use vstd::seq_lib::group_to_multiset_ensures;

    let result = insert_by_key(sorted, entry);
    if sorted.len() == 0 {
        assert(result =~= sorted.push(entry));
    } else if text_le(sorted.last().0, entry.0) {
        assert forall|i: int, j: int| 0 <= i < j < result.len() implies text_le(
            (#[trigger] result[i]).0,
            (#[trigger] result[j]).0,
        ) by {
            if j == sorted.len() && i < sorted.len() - 1 {
                lemma_text_le_transitive(sorted[i].0, sorted.last().0, entry.0);
            }
        }
    } else {
        let earlier = sorted.drop_last();
        let last = sorted.last();
        assert(sorted_by_key(earlier)) by {
            assert forall|i: int, j: int| 0 <= i < j < earlier.len() implies text_le(
                (#[trigger] earlier[i]).0,
                (#[trigger] earlier[j]).0,
            ) by {
                assert(earlier[i] == sorted[i] && earlier[j] == sorted[j]);
            }
        }
        lemma_insert_sorted(earlier, entry);
        let inner = insert_by_key(earlier, entry);
        assert(sorted =~= earlier.push(last));
        lemma_text_le_total(last.0, entry.0);
        assert forall|i: int, j: int| 0 <= i < j < result.len() implies text_le(
            (#[trigger] result[i]).0,
            (#[trigger] result[j]).0,
        ) by {
            if j == result.len() - 1 {
                assert(result[j] == last);
                assert(result[i] == inner[i]);
                if inner[i] != entry {
                    assert(inner.contains(inner[i]));
                    assert(inner.to_multiset().count(inner[i]) > 0);
                    assert(earlier.contains(inner[i]));
                    let k = choose|k: int| 0 <= k < earlier.len() && earlier[k] == inner[i];
                    assert(sorted[k] == earlier[k]);
                    assert(text_le(sorted[k].0, sorted[sorted.len() - 1].0));
                }
            } else {
                assert(result[i] == inner[i] && result[j] == inner[j]);
            }
        }
    }
}

proof fn lemma_sort_sorted(entries: Seq<(Seq<char>, Seq<char>)>)
    ensures
        sorted_by_key(sort_by_key(entries)),
        sort_by_key(entries).to_multiset() =~= entries.to_multiset(),
    decreases entries.len(),
{
    broadcast use vstd::seq_lib::group_to_multiset_ensures;

    if entries.len() > 0 {
        let earlier = entries.drop_last();
        lemma_sort_sorted(earlier);
        lemma_insert_sorted(sort_by_key(earlier), entries.last());
        assert(entries =~= earlier.push(entries.last()));
    }
}

/// `text_le` is a total order: any two texts compare one way or the other.
pub proof fn lemma_text_le_total(a: Seq<char>, b: Seq<char>)
    ensures
        text_le(a, b) || text_le(b, a),
    decreases a.len(),
{
    if a.len() > 0 && b.len() > 0 && (a[0] as u32) == (b[0] as u32) {
        lemma_text_le_total(a.drop_first(), b.drop_first());
    }
}

/// `text_le` is transitive.
pub proof fn lemma_text_le_transitive(a: Seq<char>, b: Seq<char>, c: Seq<char>)
    requires
        text_le(a, b),
        text_le(b, c),
    ensures
        text_le(a, c),
    decreases a.len(),
{
    if a.len() > 0 && (a[0] as u32) == (b[0] as u32) && (b[0] as u32) == (c[0] as u32) {
        lemma_text_le_transitive(a.drop_first(), b.drop_first(), c.drop_first());
    }
}

/// Whether texts are in order of their lower-case forms.
pub open spec fn sorted_by_lowercase(items: Seq<Seq<char>>) -> bool {
    forall|i: int, j: int|
        0 <= i < j < items.len() ==> text_le(lowercase(#[trigger] items[i]), lowercase(#[trigger] items[j]))
}

proof fn lemma_dedup_keeps_order(items: Seq<Seq<char>>)
    requires
        sorted_by_lowercase(items),
    ensures
        sorted_by_lowercase(dedup_ignoring_ascii_case(items)),
        forall|k: int|
            0 <= k < dedup_ignoring_ascii_case(items).len() ==> items.contains(
                #[trigger] dedup_ignoring_ascii_case(items)[k],
            ),
        forall|k: int|
            0 <= k < dedup_ignoring_ascii_case(items).len() - 1 ==> !eq_ignore_ascii_case(
                #[trigger] dedup_ignoring_ascii_case(items)[k],
                dedup_ignoring_ascii_case(items)[k + 1],
            ),
    decreases items.len(),
{
    if items.len() > 0 {
        let earlier = items.drop_last();
        assert(sorted_by_lowercase(earlier)) by {
            assert forall|i: int, j: int| 0 <= i < j < earlier.len() implies text_le(
                lowercase(#[trigger] earlier[i]),
                lowercase(#[trigger] earlier[j]),
            ) by {
                assert(earlier[i] == items[i] && earlier[j] == items[j]);
            }
        }
        lemma_dedup_keeps_order(earlier);
        let kept = dedup_ignoring_ascii_case(earlier);
        let result = dedup_ignoring_ascii_case(items);
        assert forall|k: int| 0 <= k < kept.len() implies items.contains(#[trigger] kept[k]) by {
            let m = choose|m: int| 0 <= m < earlier.len() && earlier[m] == kept[k];
            assert(items[m] == earlier[m]);
        }
        if !(kept.len() > 0 && eq_ignore_ascii_case(items.last(), kept.last())) {
            assert(result == kept.push(items.last()));
            assert forall|i: int, j: int| 0 <= i < j < result.len() implies text_le(
                lowercase(#[trigger] result[i]),
                lowercase(#[trigger] result[j]),
            ) by {
                if j == result.len() - 1 {
                    assert(result[i] == kept[i]);
                    let m = choose|m: int| 0 <= m < items.len() && items[m] == kept[i];
                    if m < items.len() - 1 {
                        assert(text_le(lowercase(items[m]), lowercase(items[items.len() - 1])));
                    } else {
                        lemma_text_le_total(lowercase(items[m]), lowercase(items[m]));
                    }
                } else {
                    assert(result[i] == kept[i] && result[j] == kept[j]);
                }
            }
            assert forall|k: int| 0 <= k < result.len() implies items.contains(#[trigger] result[k]) by {
                if k < kept.len() {
                    assert(result[k] == kept[k]);
                } else {
                    assert(items[items.len() - 1] == result[k]);
                }
            }
            assert forall|k: int| 0 <= k < result.len() - 1 implies !eq_ignore_ascii_case(
                #[trigger] result[k],
                result[k + 1],
            ) by {
                assert(result[k] == kept[k]);
                if k < kept.len() - 1 {
                    assert(result[k + 1] == kept[k + 1]);
                }
            }
        }
    }
}


proof fn lemma_dedup_represents_every_item(items: Seq<Seq<char>>)
    ensures
        forall|m: int|
            #![trigger items[m]]
            0 <= m < items.len() ==> exists|k: int|
                0 <= k < dedup_ignoring_ascii_case(items).len() && eq_ignore_ascii_case(
                    items[m],
                    #[trigger] dedup_ignoring_ascii_case(items)[k],
                ),
    decreases items.len(),
{
    if items.len() > 0 {
        let earlier = items.drop_last();
        lemma_dedup_represents_every_item(earlier);
        let kept = dedup_ignoring_ascii_case(earlier);
        let result = dedup_ignoring_ascii_case(items);
        assert(result.len() >= kept.len());
        assert forall|k: int| 0 <= k < kept.len() implies result[k] == kept[k] by {
            if !(kept.len() > 0 && eq_ignore_ascii_case(items.last(), kept.last())) {
                assert(result == kept.push(items.last()));
            }
        }
        assert forall|m: int| #![trigger items[m]] 0 <= m < items.len() implies exists|k: int|
            0 <= k < result.len() && eq_ignore_ascii_case(items[m], #[trigger] result[k]) by {
            if m < items.len() - 1 {
                assert(earlier[m] == items[m]);
                let k = choose|k: int|
                    0 <= k < kept.len() && eq_ignore_ascii_case(earlier[m], #[trigger] kept[k]);
                assert(result[k] == kept[k]);
            } else if kept.len() > 0 && eq_ignore_ascii_case(items.last(), kept.last()) {
                assert(result[kept.len() - 1] == kept.last());
            } else {
                assert(result[kept.len() as int] == items.last());
                assert(eq_ignore_ascii_case(items[m], items[m]));
            }
        }
    }
}

/// The list offered for selection is in order of the lower-case forms, no
/// two neighbours are equal ignoring ASCII case, every entry is one of the
/// items, and every item is listed: the list holds an entry equal to it
/// ignoring ASCII case.
pub proof fn lemma_selection_list_is_ordered_unique_and_complete(items: Seq<Seq<char>>)
    ensures
        sorted_by_lowercase(selection_list(items)),
        forall|k: int|
            0 <= k < selection_list(items).len() - 1 ==> !eq_ignore_ascii_case(
                #[trigger] selection_list(items)[k],
                selection_list(items)[k + 1],
            ),
        forall|k: int|
            0 <= k < selection_list(items).len() ==> items.contains(#[trigger] selection_list(items)[k]),
        forall|m: int|
            #![trigger items[m]]
            0 <= m < items.len() ==> exists|k: int|
                0 <= k < selection_list(items).len() && eq_ignore_ascii_case(
                    items[m],
                    #[trigger] selection_list(items)[k],
                ),
{
    broadcast use vstd::seq_lib::group_to_multiset_ensures;

    let entries = lowercase_keyed(items);
    lemma_sort_sorted(entries);
    let sorted = sort_by_key(entries);
    let ordered = entry_texts(sorted);
    let list = selection_list(items);
    assert(sorted.to_multiset() == entries.to_multiset());
    assert forall|s: int| 0 <= s < sorted.len() implies exists|m: int|
        0 <= m < items.len() && #[trigger] sorted[s] == (lowercase(items[m]), items[m]) by {
        assert(sorted.contains(sorted[s]));
        assert(sorted.to_multiset().count(sorted[s]) > 0);
        assert(entries.to_multiset().count(sorted[s]) > 0);
        assert(entries.contains(sorted[s]));
        let m = choose|m: int| 0 <= m < entries.len() && entries[m] == sorted[s];
        assert(entries[m] == (lowercase(items[m]), items[m]));
    }
    assert(sorted_by_lowercase(ordered)) by {
        assert forall|i: int, j: int| 0 <= i < j < ordered.len() implies text_le(
            lowercase(#[trigger] ordered[i]),
            lowercase(#[trigger] ordered[j]),
        ) by {
            let a = choose|m: int| 0 <= m < items.len() && sorted[i] == (lowercase(items[m]), items[m]);
            let b = choose|m: int| 0 <= m < items.len() && sorted[j] == (lowercase(items[m]), items[m]);
            assert(text_le(sorted[i].0, sorted[j].0));
        }
    }
    lemma_dedup_keeps_order(ordered);
    lemma_dedup_represents_every_item(ordered);
    assert forall|k: int| 0 <= k < list.len() implies items.contains(#[trigger] list[k]) by {
        let s = choose|s: int| 0 <= s < ordered.len() && ordered[s] == list[k];
        let m = choose|m: int| 0 <= m < items.len() && sorted[s] == (lowercase(items[m]), items[m]);
        assert(items[m] == list[k]);
    }
    assert forall|m: int| #![trigger items[m]] 0 <= m < items.len() implies exists|k: int|
        0 <= k < list.len() && eq_ignore_ascii_case(items[m], #[trigger] list[k]) by {
        assert(entries[m] == (lowercase(items[m]), items[m]));
        assert(entries.contains(entries[m]));
        assert(entries.to_multiset().count(entries[m]) > 0);
        assert(sorted.to_multiset().count(entries[m]) > 0);
        assert(sorted.contains(entries[m]));
        let s = choose|s: int| 0 <= s < sorted.len() && sorted[s] == entries[m];
        assert(ordered[s] == items[m]);
        let k = choose|k: int| 0 <= k < list.len() && eq_ignore_ascii_case(ordered[s], #[trigger] list[k]);
    }
}

/// A lens as the lens database names it.
pub struct LensfunLens {
    pub maker: String,
    pub model: String,
}

/// The lenses that match a RAW's camera and mount, with the database's
/// automatic match for the RAW's metadata.
pub struct LensfunCatalog {
    pub available: bool,
    pub auto_match: Option<LensfunLens>,
    pub lenses: Vec<LensfunLens>,
    pub status: String,
}

/// The lens-correction choice of the open document.
pub struct LensCorrectionState {
    pub enabled: bool,
    pub applied: bool,
    pub catalog: LensfunCatalog,
    pub selected_maker: String,
    pub selected_model: String,
}

/// A lens choice saved with a document's edits.
pub struct SavedLensSelection {
    pub enabled: bool,
    pub maker: String,
    pub model: String,
}

/// The makers of the catalogued lenses, in catalog order.
pub open spec fn lens_makers(lenses: Seq<LensfunLens>) -> Seq<Seq<char>> {
    lenses.map_values(|lens: LensfunLens| lens.maker@)
}

/// The models of the catalogued lenses whose maker equals `maker` ignoring
/// ASCII case, in catalog order.
pub open spec fn models_made_by(lenses: Seq<LensfunLens>, maker: Seq<char>) -> Seq<Seq<char>>
    decreases lenses.len(),
{
    if lenses.len() == 0 {
        Seq::empty()
    } else {
        let earlier = models_made_by(lenses.drop_last(), maker);
        if eq_ignore_ascii_case(lenses.last().maker@, maker) {
            earlier.push(lenses.last().model@)
        } else {
            earlier
        }
    }
}

/// Every maker of a catalogued lens is offered for selection: the maker list
/// holds an entry equal to it ignoring ASCII case.
pub proof fn lemma_every_lens_maker_is_offered(lenses: Seq<LensfunLens>)
    ensures
        forall|m: int|
            #![trigger lenses[m]]
            0 <= m < lenses.len() ==> exists|k: int|
                0 <= k < selection_list(lens_makers(lenses)).len() && eq_ignore_ascii_case(
                    lenses[m].maker@,
                    #[trigger] selection_list(lens_makers(lenses))[k],
                ),
{
    let makers = lens_makers(lenses);
    lemma_selection_list_is_ordered_unique_and_complete(makers);
    assert forall|m: int| #![trigger lenses[m]] 0 <= m < lenses.len() implies exists|k: int|
        0 <= k < selection_list(makers).len() && eq_ignore_ascii_case(
            lenses[m].maker@,
            #[trigger] selection_list(makers)[k],
        ) by {
        assert(makers[m] == lenses[m].maker@);
    }
}

impl LensCorrectionState {
    /// The state for a freshly opened RAW: the automatic match is selected,
    /// and correction is on when the database is available and matched.
    pub fn from_catalog(catalog: LensfunCatalog) -> (state: Self)
        ensures
            state.enabled == (catalog.available && catalog.auto_match is Some),
            !state.applied,
            state.catalog == catalog,
            state.selected_maker@ == (match catalog.auto_match {
                Some(lens) => lens.maker@,
                None => Seq::empty(),
            }),
            state.selected_model@ == (match catalog.auto_match {
                Some(lens) => lens.model@,
                None => Seq::empty(),
            }),
    {
        let (selected_maker, selected_model) = match &catalog.auto_match {
            Some(lens) => (lens.maker.clone(), lens.model.clone()),
            None => (String::new(), String::new()),
        };
        let enabled = catalog.available && catalog.auto_match.is_some();
        LensCorrectionState {
            enabled,
            applied: false,
            catalog,
            selected_maker,
            selected_model,
        }
    }

    /// The selected lens, when a model is chosen (one that is not blank).
    pub fn selected_lens(&self) -> (lens: Option<LensfunLens>)
        ensures
            lens is Some <==> trim(self.selected_model@).len() > 0,
            lens matches Some(chosen) ==> chosen.maker@ == self.selected_maker@ && chosen.model@
                == self.selected_model@,
    {
        let trimmed = str_trim(self.selected_model.as_str());
        if trimmed.as_str().is_empty() {
            None
        } else {
            Some(
                LensfunLens {
                    maker: self.selected_maker.clone(),
                    model: self.selected_model.clone(),
                },
            )
        }
    }

    /// Restores a saved lens choice over the automatic one. Correction stays
    /// on only where the database is available; the result says whether the
    /// saved choice asked for a correction this build cannot make.
    pub fn restore_saved(&mut self, saved: SavedLensSelection) -> (unavailable: bool)
        ensures
            final(self).selected_maker@ == saved.maker@,
            final(self).selected_model@ == saved.model@,
            final(self).enabled == (saved.enabled && old(self).catalog.available),
            final(self).applied == old(self).applied,
            final(self).catalog == old(self).catalog,
            unavailable == (saved.enabled && !old(self).catalog.available),
    {
        self.selected_maker = saved.maker;
        self.selected_model = saved.model;
        self.enabled = saved.enabled && self.catalog.available;
        saved.enabled && !self.catalog.available
    }

    /// The lens whose correction should be applied to the full-resolution
    /// RAW: the selected lens while correction is enabled. Correction that is
    /// enabled without a selected lens is switched off.
    pub fn lens_to_apply(&mut self) -> (lens: Option<LensfunLens>)
        ensures
            lens is Some <==> (old(self).enabled && trim(old(self).selected_model@).len() > 0),
            lens matches Some(chosen) ==> chosen.maker@ == old(self).selected_maker@
                && chosen.model@ == old(self).selected_model@,
            final(self).enabled == (lens is Some),
            final(self).applied == old(self).applied,
            final(self).catalog == old(self).catalog,
            final(self).selected_maker == old(self).selected_maker,
            final(self).selected_model == old(self).selected_model,
    {
        if !self.enabled {
            return None;
        }
        let lens = self.selected_lens();
        if lens.is_none() {
            self.enabled = false;
        }
        lens
    }

    /// Records whether applying the selected lens's correction succeeded. A
    /// failure switches correction off; the result says whether the user must
    /// be warned that the original geometry is shown.
    pub fn record_correction(&mut self, succeeded: bool) -> (warn: bool)
        ensures
            final(self).applied == succeeded,
            final(self).enabled == (succeeded && old(self).enabled),
            final(self).catalog == old(self).catalog,
            final(self).selected_maker == old(self).selected_maker,
            final(self).selected_model == old(self).selected_model,
            warn == !succeeded,
    {
        if succeeded {
            self.applied = true;
        } else {
            self.enabled = false;
            self.applied = false;
        }
        !succeeded
    }

    /// The makers offered for selection: sorted without case, with makers
    /// that differ only in ASCII case listed once.
    pub fn makers(&self) -> (makers: Vec<String>)
        ensures
            texts(makers@) == selection_list(lens_makers(self.catalog.lenses@)),
    {
        let mut all: Vec<String> = Vec::new();
        let mut i: usize = 0;
        while i < self.catalog.lenses.len()
            invariant
                i <= self.catalog.lenses.len(),
                texts(all@) == lens_makers(self.catalog.lenses@.subrange(0, i as int)),
            decreases self.catalog.lenses.len() - i,
        {
            let ghost before = all@;
            all.push(self.catalog.lenses[i].maker.clone());
            proof {
                assert(texts(all@) =~= texts(before).push(self.catalog.lenses@[i as int].maker@));
                assert(lens_makers(self.catalog.lenses@.subrange(0, i + 1)) =~= lens_makers(
                    self.catalog.lenses@.subrange(0, i as int),
                ).push(self.catalog.lenses@[i as int].maker@));
            }
            i += 1;
        }
        proof {
            assert(self.catalog.lenses@.subrange(0, self.catalog.lenses.len() as int)
                =~= self.catalog.lenses@);
        }
        sorted_selection_list(&all)
    }

    /// The models of `maker` (matched ignoring ASCII case) offered for
    /// selection: sorted without case, with models that differ only in ASCII
    /// case listed once.
    pub fn models_for_maker(&self, maker: &str) -> (models: Vec<String>)
        ensures
            texts(models@) == selection_list(models_made_by(self.catalog.lenses@, maker@)),
    {
        let mut all: Vec<String> = Vec::new();
        let mut i: usize = 0;
        while i < self.catalog.lenses.len()
            invariant
                i <= self.catalog.lenses.len(),
                texts(all@) == models_made_by(self.catalog.lenses@.subrange(0, i as int), maker@),
            decreases self.catalog.lenses.len() - i,
        {
            let ghost before = all@;
            proof {
                assert(self.catalog.lenses@.subrange(0, i + 1).drop_last()
                    =~= self.catalog.lenses@.subrange(0, i as int));
            }
            if text_eq_ignore_ascii_case(self.catalog.lenses[i].maker.as_str(), maker) {
                all.push(self.catalog.lenses[i].model.clone());
                proof {
                    assert(texts(all@) =~= texts(before).push(self.catalog.lenses@[i as int].model@));
                }
            }
            i += 1;
        }
        proof {
            assert(self.catalog.lenses@.subrange(0, self.catalog.lenses.len() as int)
                =~= self.catalog.lenses@);
        }
        sorted_selection_list(&all)
    }
}

/// The notice when a saved lens correction cannot be made by this build.
pub fn saved_correction_unavailable_notice() -> (notice: String)
    ensures
        notice@ == "The saved lens correction is unavailable in this build."@,
{
    String::from_str("The saved lens correction is unavailable in this build.")
}

/// The notice when applying the saved lens correction failed.
pub fn correction_failed_notice() -> (notice: String)
    ensures
        notice@ == "The saved lens correction failed; the original RAW geometry is shown."@,
{
    String::from_str("The saved lens correction failed; the original RAW geometry is shown.")
}

/// The catalog's status line after applying the correction of the lens
/// labelled `label`: applied, or matched but failed with `error`.
pub open spec fn spec_correction_status(label: Seq<char>, failure: Option<Seq<char>>) -> Seq<char> {
    match failure {
        None => "Automatically applied "@ + label + " from RAW metadata"@,
        Some(error) => "Matched "@ + label + ", but correction failed: "@ + error,
    }
}

/// The catalog's status line after applying the correction of the lens
/// labelled `label`: applied, or matched but failed with `error`.
pub fn correction_status(label: &str, failure: Option<&str>) -> (status: String)
    ensures
        status@ == spec_correction_status(label@, match failure {
            Some(error) => Some(error@),
            None => None,
        }),
{
    match failure {
        None => {
            let mut status = String::from_str("Automatically applied ");
            status.append(label);
            status.append(" from RAW metadata");
            status
        },
        Some(error) => {
            let mut status = String::from_str("Matched ");
            status.append(label);
            status.append(", but correction failed: ");
            status.append(error);
            status
        },
    }
}

} // verus!
