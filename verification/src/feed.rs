//! The syndication feed that announces bulletins, and the choice of its entries
//! by title.

use vstd::prelude::*;
use crate::fuken_r1::model::Timestamp;
use crate::text::str_eq;

verus! {

/// A feed: its own description, and one entry for each bulletin it announces.
#[derive(Debug, Clone, PartialEq, Eq)]
pub struct Feed {
    pub lang: String,
    pub title: String,
    pub subtitle: String,
    pub updated: Timestamp,
    pub id: String,
    pub link: Vec<Link>,
    pub rights: Rights,
    pub entries: Vec<Entry>,
}

/// The announcement of one bulletin. Its title names the kind of bulletin, its
/// link leads to the document.
#[derive(Debug, Clone, PartialEq, Eq)]
pub struct Entry {
    pub title: String,
    pub id: String,
    pub updated: Timestamp,
    pub author: Author,
    pub link: Link,
    pub content: Content,
}

/// Who issued the bulletin.
#[derive(Debug, Clone, PartialEq, Eq)]
pub struct Author {
    pub name: String,
}

/// The short text of an entry: most often the name of the bulletin.
#[derive(Debug, Clone, PartialEq, Eq)]
pub struct Content {
    pub _type: String,
    pub value: String,
}

/// A link of the feed or of an entry.
#[derive(Debug, Clone, PartialEq, Eq)]
pub struct Link {
    pub _type: Option<String>,
    pub rel: Option<String>,
    pub href: String,
}

/// The terms under which the feed may be used.
#[derive(Debug, Clone, PartialEq, Eq)]
pub struct Rights {
    pub _type: String,
    pub item: String,
}

/// The entries of a feed that share a title.
#[derive(Debug, Clone, PartialEq, Eq)]
pub struct TitledEntries {
    pub title: String,
    pub entries: Vec<Entry>,
}

/// `title` is one of `filters`.
pub open spec fn is_listed(filters: Seq<&str>, title: Seq<char>) -> bool {
    exists|i: int| 0 <= i < filters.len() && (#[trigger] filters[i])@ == title
}

/// An entry with this title is kept: under an allow-list when the title is
/// listed, under a deny-list when it is not.
pub open spec fn is_selected(filters: Seq<&str>, is_blacklist: bool, title: Seq<char>) -> bool {
    is_listed(filters, title) != is_blacklist
}

/// The entries that are kept, in feed order.
pub open spec fn selected(entries: Seq<Entry>, filters: Seq<&str>, is_blacklist: bool) -> Seq<
    Entry,
> {
    entries.filter(|entry: Entry| is_selected(filters, is_blacklist, entry.title@))
}

/// The entries with the given title, in their order.
pub open spec fn titled(entries: Seq<Entry>, title: Seq<char>) -> Seq<Entry> {
    entries.filter(|entry: Entry| entry.title@ == title)
}

/// The titles of the entries, each once, in the order in which they first occur.
pub open spec fn distinct_titles(entries: Seq<Entry>) -> Seq<Seq<char>>
    decreases entries.len(),
{
    if entries.len() == 0 {
        Seq::empty()
    } else {
        let earlier = distinct_titles(entries.drop_last());
        if earlier.contains(entries.last().title@) {
            earlier
        } else {
            earlier.push(entries.last().title@)
        }
    }
}

/// `groups` holds `entries` by title: one group for each title, in the order in
/// which the titles first occur, each with all entries of its title in their
/// order.
pub open spec fn groups_by_title(groups: Seq<TitledEntries>, entries: Seq<Entry>) -> bool {
    &&& groups.len() == distinct_titles(entries).len()
    &&& forall|k: int|
        0 <= k < groups.len() ==> {
            &&& (#[trigger] groups[k]).title@ == distinct_titles(entries)[k]
            &&& groups[k].entries@ == titled(entries, groups[k].title@)
        }
}

/// No title is listed twice, and the titles listed are those of the entries.
pub proof fn lemma_distinct_titles(entries: Seq<Entry>)
    ensures
        distinct_titles(entries).no_duplicates(),
        forall|title: Seq<char>|
            distinct_titles(entries).contains(title) <==> exists|i: int|
                0 <= i < entries.len() && (#[trigger] entries[i]).title@ == title,
    decreases entries.len(),
{
    if entries.len() > 0 {
        let front = entries.drop_last();
        let last = entries.last();
        lemma_distinct_titles(front);
        let earlier = distinct_titles(front);
        let all = distinct_titles(entries);
        assert forall|title: Seq<char>| all.contains(title) implies exists|i: int|
            0 <= i < entries.len() && (#[trigger] entries[i]).title@ == title by {
            if earlier.contains(title) {
                let i = choose|i: int| 0 <= i < front.len() && (#[trigger] front[i]).title@ == title;
                assert(entries[i].title@ == title);
            } else {
                assert(last.title@ == title);
            }
        }
        assert forall|title: Seq<char>|
            (exists|i: int| 0 <= i < entries.len() && (#[trigger] entries[i]).title@ == title)
            implies all.contains(title) by {
            let i = choose|i: int| 0 <= i < entries.len() && (#[trigger] entries[i]).title@ == title;
            if i < front.len() {
                assert(front[i].title@ == title);
                assert(earlier.contains(title));
                let k = choose|k: int| 0 <= k < earlier.len() && earlier[k] == title;
                assert(all[k] == title);
            } else if !earlier.contains(title) {
                assert(all[all.len() - 1] == title);
            }
        }
    }
}

/// What one more entry does to the groups: it joins the group of its title, or
/// starts a new group at the end.
proof fn lemma_group_one_more(entries: Seq<Entry>, entry: Entry)
    ensures
        distinct_titles(entries.push(entry)) == if distinct_titles(entries).contains(entry.title@) {
            distinct_titles(entries)
        } else {
            distinct_titles(entries).push(entry.title@)
        },
        forall|title: Seq<char>|
            #[trigger] titled(entries.push(entry), title) == if entry.title@ == title {
                titled(entries, title).push(entry)
            } else {
                titled(entries, title)
            },
        !distinct_titles(entries).contains(entry.title@) ==> titled(entries, entry.title@)
            == Seq::<Entry>::empty(),
{
    reveal(Seq::filter);
    assert(entries.push(entry).drop_last() =~= entries);
    if !distinct_titles(entries).contains(entry.title@) {
        lemma_distinct_titles(entries);
        entries.lemma_all_neg_filter_empty(|e: Entry| e.title@ == entry.title@);
    }
}

/// Whether `title` is one of `filters`.
pub fn title_is_listed(filters: &[&str], title: &str) -> (b: bool)
    ensures
        b == is_listed(filters@, title@),
{
    let mut i: usize = 0;
    while i < filters.len()
        invariant
            i <= filters@.len(),
            forall|j: int| 0 <= j < i ==> (#[trigger] filters@[j])@ != title@,
        decreases filters@.len() - i,
    {
        if str_eq(filters[i], title) {
            return true;
        }
        i += 1;
    }
    false
}

/// The first group with the given title, if there is one.
fn group_of_title(groups: &Vec<TitledEntries>, title: &str) -> (r: Option<usize>)
    ensures
        match r {
            Some(k) => k < groups@.len() && groups@[k as int].title@ == title@,
            None => forall|k: int| 0 <= k < groups@.len() ==> (#[trigger] groups@[k]).title@ != title@,
        },
{
    let mut k: usize = 0;
    while k < groups.len()
        invariant
            k <= groups@.len(),
            forall|j: int| 0 <= j < k ==> (#[trigger] groups@[j]).title@ != title@,
        decreases groups@.len() - k,
    {
        if str_eq(groups[k].title.as_str(), title) {
            return Some(k);
        }
        k += 1;
    }
    None
}

impl Feed {
    /// Chooses the entries by title and groups them by title. With
    /// `is_title_blacklist` the entries whose title is in `title_filters` are
    /// left out; without it only they are kept.
    pub fn into_titled_entries(self, title_filters: &[&str], is_title_blacklist: bool) -> (r: Vec<
        TitledEntries,
    >)
        ensures
            groups_by_title(r@, selected(self.entries@, title_filters@, is_title_blacklist)),
    {
        let ghost keep = |entry: Entry| is_selected(title_filters@, is_title_blacklist, entry.title@);
        let entries = self.entries;
        let mut out: Vec<TitledEntries> = Vec::new();
        proof {
            reveal(Seq::filter);
        }
        for entry in it: entries
            invariant
                it.seq() == entries@,
                keep == |entry: Entry|
                    is_selected(title_filters@, is_title_blacklist, entry.title@),
                groups_by_title(out@, entries@.take(it.index() as int).filter(keep)),
        {
            let ghost i = it.index() as int;
            let ghost chosen = entries@.take(i).filter(keep);
            let ghost before = out@;
            proof {
                reveal(Seq::filter);
                assert(entries@.take(i + 1).drop_last() =~= entries@.take(i));
                lemma_group_one_more(chosen, entry);
                lemma_distinct_titles(chosen);
            }
            if title_is_listed(title_filters, entry.title.as_str()) != is_title_blacklist {
                match group_of_title(&out, entry.title.as_str()) {
                    Some(k) => {
                        let mut group = out.remove(k);
                        group.entries.push(entry);
                        out.insert(k, group);
                        assert forall|j: int| 0 <= j < out@.len() implies {
                            &&& (#[trigger] out@[j]).title@ == distinct_titles(chosen.push(entry))[j]
                            &&& out@[j].entries@ == titled(chosen.push(entry), out@[j].title@)
                        } by {
                            assert(before[j].title@ == distinct_titles(chosen)[j]);
                        }
                    },
                    None => {
                        assert(!distinct_titles(chosen).contains(entry.title@)) by {
                            if distinct_titles(chosen).contains(entry.title@) {
                                let j = choose|j: int|
                                    0 <= j < distinct_titles(chosen).len() && distinct_titles(
                                        chosen,
                                    )[j] == entry.title@;
                                assert(before[j].title@ == entry.title@);
                            }
                        }
                        let title = entry.title.clone();
                        let mut group_entries: Vec<Entry> = Vec::new();
                        group_entries.push(entry);
                        out.push(TitledEntries { title, entries: group_entries });
                        assert forall|j: int| 0 <= j < out@.len() implies {
                            &&& (#[trigger] out@[j]).title@ == distinct_titles(chosen.push(entry))[j]
                            &&& out@[j].entries@ == titled(chosen.push(entry), out@[j].title@)
                        } by {
                            if j < before.len() {
                                assert(out@[j] == before[j]);
                            }
                        }
                    },
                }
            }
        }
        assert(entries@.take(entries@.len() as int) =~= entries@);
        out
    }
}

} // verus!
