//! The history of the questions asked about a section of a document: the
//! newest entries of each section are kept, oldest first.

use crate::config::fresh_id;
use crate::text::same_text;
use crate::vecs::reversed;
use vstd::prelude::*;
use vstd::string::*;

verus! {

/// One question about a section, with its answer.
#[derive(Clone, Debug, PartialEq, Eq)]
pub struct PreviewAskHistoryItem {
    pub id: String,
    pub question: String,
    pub answer: String,
    pub heading_id: String,
    pub heading_title: Option<String>,
    /// When the entry was made, in milliseconds since the Unix epoch.
    pub created_at_ms: i64,
}

/// How many entries are kept per section.
pub const MAX_PER_HEADING: usize = 50;

/// The last `n` of `items`, or all of them if they are fewer.
pub open spec fn newest<T>(items: Seq<T>, n: nat) -> Seq<T> {
    if items.len() > n {
        items.skip(items.len() - n)
    } else {
        items
    }
}

/// `sorted` with `item` put in after every entry that is not younger.
pub open spec fn insert_by_time(
    sorted: Seq<PreviewAskHistoryItem>,
    item: PreviewAskHistoryItem,
) -> Seq<PreviewAskHistoryItem>
    decreases sorted.len(),
{
    if sorted.len() > 0 && sorted.last().created_at_ms > item.created_at_ms {
        insert_by_time(sorted.drop_last(), item).push(sorted.last())
    } else {
        sorted.push(item)
    }
}

/// `items` from the oldest to the youngest, entries of one age in the order
/// in which they stood.
pub open spec fn sorted_by_time(items: Seq<PreviewAskHistoryItem>) -> Seq<PreviewAskHistoryItem>
    decreases items.len(),
{
    if items.len() == 0 {
        seq![]
    } else {
        insert_by_time(sorted_by_time(items.drop_last()), items.last())
    }
}

/// No entry stands before an older one.
pub open spec fn oldest_first(items: Seq<PreviewAskHistoryItem>) -> bool {
    forall|i: int, j: int|
        0 <= i < j < items.len() ==> items[i].created_at_ms <= items[j].created_at_ms
}

/// Where `insert_by_time` puts an entry: behind the last entry that is not
/// younger.
proof fn lemma_insert_position(
    sorted: Seq<PreviewAskHistoryItem>,
    item: PreviewAskHistoryItem,
    at: int,
)
    requires
        0 <= at <= sorted.len(),
        forall|k: int| at <= k < sorted.len() ==> sorted[k].created_at_ms > item.created_at_ms,
        at == 0 || sorted[at - 1].created_at_ms <= item.created_at_ms,
    ensures
        insert_by_time(sorted, item) == sorted.insert(at, item),
    decreases sorted.len() - at,
{
    if at < sorted.len() {
        lemma_insert_position(sorted.drop_last(), item, at);
    }
}

/// Putting an entry into a sorted history keeps it sorted and adds that
/// entry and no other.
pub proof fn lemma_insert_keeps_order(
    sorted: Seq<PreviewAskHistoryItem>,
    item: PreviewAskHistoryItem,
)
    requires
        oldest_first(sorted),
    ensures
        oldest_first(insert_by_time(sorted, item)),
        insert_by_time(sorted, item).to_multiset() == sorted.to_multiset().insert(item),
        insert_by_time(sorted, item).len() == sorted.len() + 1,
    decreases sorted.len(),
{
    broadcast use vstd::seq_lib::group_to_multiset_ensures;

    if sorted.len() > 0 && sorted.last().created_at_ms > item.created_at_ms {
        let front = sorted.drop_last();
        let last = sorted.last();
        lemma_insert_keeps_order(front, item);
        let inner = insert_by_time(front, item);
        let out = inner.push(last);
        assert forall|i: int, j: int| 0 <= i < j < out.len() implies out[i].created_at_ms
            <= out[j].created_at_ms by {
            if j == out.len() - 1 {
                assert(inner.to_multiset().count(inner[i]) > 0);
            }
        }
        assert(front.push(last) =~= sorted);
    } else {
        assert(insert_by_time(sorted, item) == sorted.push(item));
    }
}

/// Sorting puts the oldest first and neither adds nor loses an entry.
pub proof fn lemma_sorted_by_time(items: Seq<PreviewAskHistoryItem>)
    ensures
        oldest_first(sorted_by_time(items)),
        sorted_by_time(items).to_multiset() == items.to_multiset(),
        sorted_by_time(items).len() == items.len(),
    decreases items.len(),
{
    broadcast use vstd::seq_lib::group_to_multiset_ensures;

    if items.len() > 0 {
        lemma_sorted_by_time(items.drop_last());
        lemma_insert_keeps_order(sorted_by_time(items.drop_last()), items.last());
        assert(items.drop_last().push(items.last()) =~= items);
    }
}

/// The entries of `items` that were made at the instant `at`, in order.
pub open spec fn made_at(items: Seq<PreviewAskHistoryItem>, at: i64) -> Seq<PreviewAskHistoryItem>
    decreases items.len(),
{
    if items.len() == 0 {
        seq![]
    } else {
        let before = made_at(items.drop_last(), at);
        if items.last().created_at_ms == at {
            before.push(items.last())
        } else {
            before
        }
    }
}

/// An entry that is put into a history comes behind the entries of its own
/// age, and leaves the entries of every age in their order.
pub proof fn lemma_insert_is_stable(
    sorted: Seq<PreviewAskHistoryItem>,
    item: PreviewAskHistoryItem,
    at: i64,
)
    ensures
        made_at(insert_by_time(sorted, item), at) == if item.created_at_ms == at {
            made_at(sorted, at).push(item)
        } else {
            made_at(sorted, at)
        },
    decreases sorted.len(),
{
    if sorted.len() > 0 && sorted.last().created_at_ms > item.created_at_ms {
        let front = sorted.drop_last();
        lemma_insert_is_stable(front, item, at);
        let out = insert_by_time(front, item).push(sorted.last());
        assert(out.drop_last() =~= insert_by_time(front, item));
    } else {
        let out = sorted.push(item);
        assert(out.drop_last() =~= sorted);
    }
}

/// Sorting is stable: the entries of one age stand in the sorted history as
/// they stood before.
pub proof fn lemma_sort_is_stable(items: Seq<PreviewAskHistoryItem>, at: i64)
    ensures
        made_at(sorted_by_time(items), at) == made_at(items, at),
    decreases items.len(),
{
    if items.len() > 0 {
        lemma_sort_is_stable(items.drop_last(), at);
        lemma_insert_is_stable(sorted_by_time(items.drop_last()), items.last(), at);
    }
}

/// A history that is sorted already stays as it is.
pub proof fn lemma_sorted_stays(items: Seq<PreviewAskHistoryItem>)
    requires
        oldest_first(items),
    ensures
        sorted_by_time(items) == items,
    decreases items.len(),
{
    if items.len() > 0 {
        let front = items.drop_last();
        lemma_sorted_stays(front);
    }
}

/// Adds `item` to the history of a section and drops the oldest entries
/// beyond the `MAX_PER_HEADING` newest.
pub fn append_item(list: &mut Vec<PreviewAskHistoryItem>, item: PreviewAskHistoryItem)
    ensures
        final(list)@ == newest(old(list)@.push(item), MAX_PER_HEADING as nat),
{
    list.push(item);
    if list.len() > MAX_PER_HEADING {
        let start = list.len() - MAX_PER_HEADING;
        let kept = list.split_off(start);
        *list = kept;
    }
}

fn insert_item(sorted: &mut Vec<PreviewAskHistoryItem>, item: PreviewAskHistoryItem)
    ensures
        final(sorted)@ == insert_by_time(old(sorted)@, item),
{
    let mut at: usize = sorted.len();
    while at > 0 && sorted[at - 1].created_at_ms > item.created_at_ms
        invariant
            at <= sorted.len(),
            sorted@ == old(sorted)@,
            forall|k: int| at <= k < sorted.len() ==> sorted@[k].created_at_ms > item.created_at_ms,
        decreases at,
    {
        at -= 1;
    }
    proof {
        lemma_insert_position(sorted@, item, at as int);
    }
    sorted.insert(at, item);
}

/// The history of a section as it is shown: oldest first, and only the
/// newest `limit` entries where a limit is given.
pub fn recent_items(
    items: Vec<PreviewAskHistoryItem>,
    limit: Option<usize>,
) -> (shown: Vec<PreviewAskHistoryItem>)
    ensures
        shown@ == match limit {
            Some(l) => newest(sorted_by_time(items@), l as nat),
            None => sorted_by_time(items@),
        },
{
    let ghost all = items@;
    let mut stack = reversed(items);
    let mut sorted: Vec<PreviewAskHistoryItem> = Vec::new();
    let ghost mut done: int = 0;
    assert(all.skip(0) =~= all);
    while stack.len() > 0
        invariant
            0 <= done <= all.len(),
            stack@ == all.skip(done).reverse(),
            sorted@ == sorted_by_time(all.take(done)),
        decreases stack.len(),
    {
        proof {
            assert(all.take(done + 1).drop_last() =~= all.take(done));
        }
        let item = stack.pop().unwrap();
        insert_item(&mut sorted, item);
        proof {
            done = done + 1;
        }
    }
    match limit {
        Some(l) => {
            if sorted.len() > l {
                let start = sorted.len() - l;
                sorted.split_off(start)
            } else {
                sorted
            }
        },
        None => sorted,
    }
}

/// Reads the clock with `SystemTime::now` and gives the milliseconds since
/// the Unix epoch, or nothing for a clock that stands before it. Trusted;
/// nothing is claimed of the number, which differs from call to call.
#[verifier::external_body]
fn clock_ms() -> (ms: Option<i64>) {
    match std::time::SystemTime::now().duration_since(std::time::UNIX_EPOCH) {
        Ok(since) => Some(since.as_millis() as i64),
        Err(_) => None,
    }
}

/// The time of the clock in milliseconds since the Unix epoch; 0 for a clock
/// that stands before the epoch.
fn now_ms() -> i64 {
    let reading = clock_ms();
    // Whatever the clock reads, the reading is taken as `reading_ms` says.
    reading_ms(reading)
}

/// The milliseconds that a reading of the clock counts for: the reading
/// itself, and 0 where the clock gave none because it stands before the
/// epoch.
pub fn reading_ms(reading: Option<i64>) -> (ms: i64)
    ensures
        ms == match reading {
            Some(read) => read,
            None => 0,
        },
{
    match reading {
        Some(read) => read,
        None => 0,
    }
}

/// A copy of an entry.
pub fn clone_item(item: &PreviewAskHistoryItem) -> (copy: PreviewAskHistoryItem)
    ensures
        copy == *item,
{
    PreviewAskHistoryItem {
        id: item.id.clone(),
        question: item.question.clone(),
        answer: item.answer.clone(),
        heading_id: item.heading_id.clone(),
        heading_title: match &item.heading_title {
            Some(t) => Some(t.clone()),
            None => None,
        },
        created_at_ms: item.created_at_ms,
    }
}

/// A copy of a list of entries.
pub fn clone_items(items: &Vec<PreviewAskHistoryItem>) -> (copy: Vec<PreviewAskHistoryItem>)
    ensures
        copy@ == items@,
{
    let mut copy: Vec<PreviewAskHistoryItem> = Vec::new();
    let mut i: usize = 0;
    while i < items.len()
        invariant
            i <= items.len(),
            copy@ == items@.take(i as int),
        decreases items.len() - i,
    {
        copy.push(clone_item(&items[i]));
        i += 1;
    }
    copy
}

/// The history of one section of one session.
#[derive(Clone, Debug)]
pub struct SectionHistory {
    pub session_id: String,
    pub heading_id: String,
    pub items: Vec<PreviewAskHistoryItem>,
}

/// What a section is found by: its session and its heading.
pub type SectionKey = (Seq<char>, Seq<char>);

/// The key of a section.
pub open spec fn key_of(section: SectionHistory) -> SectionKey {
    (section.session_id@, section.heading_id@)
}

/// `sections` holds the key `key` at position `i`.
pub open spec fn holds_at(sections: Seq<SectionHistory>, key: SectionKey, i: int) -> bool {
    0 <= i < sections.len() && key_of(sections[i]) == key
}

/// No two of `sections` have the same key.
pub open spec fn distinct_keys(sections: Seq<SectionHistory>) -> bool {
    forall|i: int, j: int|
        0 <= i < j < sections.len() ==> key_of(#[trigger] sections[i]) != key_of(
            #[trigger] sections[j],
        )
}

/// The histories of `sections` by key.
pub open spec fn by_key(sections: Seq<SectionHistory>) -> Map<
    SectionKey,
    Seq<PreviewAskHistoryItem>,
> {
    Map::new(
        |key: SectionKey| exists|i: int| holds_at(sections, key, i),
        |key: SectionKey| sections[choose|i: int| holds_at(sections, key, i)].items@,
    )
}

/// With distinct keys, the history under a key is that of the one section
/// that has the key.
proof fn lemma_by_key(sections: Seq<SectionHistory>, i: int)
    requires
        distinct_keys(sections),
        0 <= i < sections.len(),
    ensures
        by_key(sections).dom().contains(key_of(sections[i])),
        by_key(sections)[key_of(sections[i])] == sections[i].items@,
{
    let key = key_of(sections[i]);
    assert(holds_at(sections, key, i));
    let j = choose|j: int| holds_at(sections, key, j);
    assert(j == i);
}

/// Every section's history, found by session and heading. A section is in
/// the store as long as it has a history.
#[derive(Debug)]
pub struct HistoryStore {
    sections: Vec<SectionHistory>,
}

impl View for HistoryStore {
    type V = Map<SectionKey, Seq<PreviewAskHistoryItem>>;

    closed spec fn view(&self) -> Self::V {
        by_key(self.sections@)
    }
}

/// The history under `key`, which is empty for a section that is not in
/// the store.
pub open spec fn history_of(
    store: Map<SectionKey, Seq<PreviewAskHistoryItem>>,
    key: SectionKey,
) -> Seq<PreviewAskHistoryItem> {
    if store.dom().contains(key) {
        store[key]
    } else {
        seq![]
    }
}

impl HistoryStore {
    #[verifier::type_invariant]
    spec fn inv(self) -> bool {
        distinct_keys(self.sections@)
    }

    /// A store without any history.
    pub fn new() -> (store: HistoryStore)
        ensures
            store@ == Map::<SectionKey, Seq<PreviewAskHistoryItem>>::empty(),
    {
        let store = HistoryStore { sections: Vec::new() };
        store
    }

    fn find(&self, session_id: &str, heading_id: &str) -> (found: Option<usize>)
        ensures
            match found {
                Some(i) => holds_at(self.sections@, (session_id@, heading_id@), i as int),
                None => !self@.dom().contains((session_id@, heading_id@)),
            },
    {
        let mut i: usize = 0;
        while i < self.sections.len()
            invariant
                i <= self.sections.len(),
                forall|j: int|
                    0 <= j < i ==> !holds_at(self.sections@, (session_id@, heading_id@), j),
            decreases self.sections.len() - i,
        {
            if same_text(self.sections[i].session_id.as_str(), session_id) && same_text(
                self.sections[i].heading_id.as_str(),
                heading_id,
            ) {
                return Some(i);
            }
            i += 1;
        }
        None
    }

    /// How many sections have a history.
    pub fn len(&self) -> (n: usize)
        ensures
            n == self@.dom().len(),
            self@.dom().finite(),
    {
        proof {
            use_type_invariant(self);
            lemma_count(self.sections@);
        }
        self.sections.len()
    }

    /// The sections and their histories, for writing them to disk.
    pub fn sections(&self) -> (sections: Vec<SectionHistory>)
        ensures
            distinct_keys(sections@),
            by_key(sections@) == self@,
    {
        proof {
            use_type_invariant(self);
        }
        let mut copy: Vec<SectionHistory> = Vec::new();
        let mut i: usize = 0;
        while i < self.sections.len()
            invariant
                i <= self.sections.len(),
                copy@.len() == i,
                forall|k: int|
                    0 <= k < i ==> key_of(#[trigger] copy@[k]) == key_of(self.sections@[k])
                        && copy@[k].items@ == self.sections@[k].items@,
            decreases self.sections.len() - i,
        {
            let section = &self.sections[i];
            copy.push(
                SectionHistory {
                    session_id: section.session_id.clone(),
                    heading_id: section.heading_id.clone(),
                    items: clone_items(&section.items),
                },
            );
            i += 1;
        }
        proof {
            lemma_same_keys(self.sections@, copy@);
        }
        copy
    }

    /// The history of a section as it is shown: oldest first, and only the
    /// newest `limit` entries where a limit is given.
    pub fn get(
        &self,
        session_id: &str,
        heading_id: &str,
        limit: Option<usize>,
    ) -> (shown: Vec<PreviewAskHistoryItem>)
        ensures
            shown@ == match limit {
                Some(l) => newest(
                    sorted_by_time(history_of(self@, (session_id@, heading_id@))),
                    l as nat,
                ),
                None => sorted_by_time(history_of(self@, (session_id@, heading_id@))),
            },
    {
        proof {
            use_type_invariant(self);
        }
        let items = match self.find(session_id, heading_id) {
            Some(i) => {
                clone_items(&self.sections[i].items)
            },
            None => Vec::new(),
        };
        recent_items(items, limit)
    }

    /// Puts `items` in place of the history of a section. Empty `items` take
    /// the section out of the store.
    pub fn put(&mut self, session_id: String, heading_id: String, items: Vec<PreviewAskHistoryItem>)
        ensures
            final(self)@ == if items@.len() == 0 {
                old(self)@.remove((session_id@, heading_id@))
            } else {
                old(self)@.insert((session_id@, heading_id@), items@)
            },
    {
        proof {
            use_type_invariant(&*self);
        }
        let ghost before = self.sections@;
        let found = self.find(session_id.as_str(), heading_id.as_str());
        let mut sections: Vec<SectionHistory> = Vec::new();
        core::mem::swap(&mut sections, &mut self.sections);
        match found {
            Some(i) => {
                sections.remove(i);
                proof {
                    lemma_removed(before, i as int);
                }
            },
            None => {},
        }
        if items.len() > 0 {
            let ghost without = sections@;
            let section = SectionHistory { session_id, heading_id, items };
            proof {
                lemma_pushed(without, section);
            }
            sections.push(section);
        }
        self.sections = sections;
    }

    /// Adds an entry to the history of a section and drops the oldest
    /// entries of the section beyond the `MAX_PER_HEADING` newest.
    pub fn append(&mut self, session_id: String, item: PreviewAskHistoryItem)
        ensures
            final(self)@ == old(self)@.insert(
                (session_id@, item.heading_id@),
                newest(
                    history_of(old(self)@, (session_id@, item.heading_id@)).push(item),
                    MAX_PER_HEADING as nat,
                ),
            ),
    {
        proof {
            use_type_invariant(&*self);
        }
        let heading_id = item.heading_id.clone();
        let mut items = match self.find(session_id.as_str(), heading_id.as_str()) {
            Some(i) => {
                clone_items(&self.sections[i].items)
            },
            None => Vec::new(),
        };
        append_item(&mut items, item);
        self.put(session_id, heading_id, items);
    }

    /// Makes an entry of a question and its answer, with a random identifier
    /// and the time of the clock, and adds it to the history of its section.
    /// Whatever identifier and time it gets, the entry becomes the last of
    /// the section, behind the newest of the entries that were there.
    pub fn record(
        &mut self,
        session_id: String,
        heading_id: String,
        heading_title: Option<String>,
        question: String,
        answer: String,
    )
        ensures
            final(self)@.dom() == old(self)@.dom().insert((session_id@, heading_id@)),
            ({
                let after = final(self)@;
                forall|key: SectionKey|
                    key != (session_id@, heading_id@) && old(self)@.dom().contains(key)
                        ==> #[trigger] after[key] == old(self)@[key]
            }),
            ({
                let was = history_of(old(self)@, (session_id@, heading_id@));
                let now = final(self)@[(session_id@, heading_id@)];
                &&& now.len() > 0
                &&& now.last().question == question
                &&& now.last().answer == answer
                &&& now.last().heading_id@ == heading_id@
                &&& now.last().heading_title == heading_title
                &&& now.drop_last() == newest(was, (MAX_PER_HEADING - 1) as nat)
            }),
    {
        let ghost was = history_of(old(self)@, (session_id@, heading_id@));
        let item = PreviewAskHistoryItem {
            id: fresh_id(),
            question,
            answer,
            heading_id: heading_id.clone(),
            heading_title,
            created_at_ms: now_ms(),
        };
        proof {
            let kept = newest(was.push(item), MAX_PER_HEADING as nat);
            assert(kept.last() == item);
            assert(kept.drop_last() == newest(was, (MAX_PER_HEADING - 1) as nat));
        }
        self.append(session_id, item);
    }

    /// Takes the history of a section out of the store.
    pub fn clear(&mut self, session_id: &str, heading_id: &str)
        ensures
            final(self)@ == old(self)@.remove((session_id@, heading_id@)),
    {
        proof {
            use_type_invariant(&*self);
        }
        let ghost before = self.sections@;
        let found = self.find(session_id, heading_id);
        let mut sections: Vec<SectionHistory> = Vec::new();
        core::mem::swap(&mut sections, &mut self.sections);
        match found {
            Some(i) => {
                sections.remove(i);
                proof {
                    lemma_removed(before, i as int);
                }
            },
            None => {},
        }
        self.sections = sections;
    }
}

/// Taking a section out of a list with distinct keys takes its key out of
/// the histories by key and leaves the others.
proof fn lemma_removed(sections: Seq<SectionHistory>, i: int)
    requires
        distinct_keys(sections),
        0 <= i < sections.len(),
    ensures
        distinct_keys(sections.remove(i)),
        by_key(sections.remove(i)) == by_key(sections).remove(key_of(sections[i])),
{
    let rest = sections.remove(i);
    let key = key_of(sections[i]);
    let left = by_key(rest);
    let right = by_key(sections).remove(key);
    assert forall|k: SectionKey| left.dom().contains(k) <==> right.dom().contains(k) by {
        if left.dom().contains(k) {
            let a = choose|a: int| holds_at(rest, k, a);
            let a0 = if a < i { a } else { a + 1 };
            assert(holds_at(sections, k, a0));
        }
        if right.dom().contains(k) {
            let a0 = choose|a0: int| holds_at(sections, k, a0);
            let a = if a0 < i { a0 } else { a0 - 1 };
            assert(holds_at(rest, k, a));
        }
    }
    assert forall|k: SectionKey| left.dom().contains(k) implies left[k] == right[k] by {
        let a = choose|a: int| holds_at(rest, k, a);
        let a0 = if a < i { a } else { a + 1 };
        assert(rest[a] == sections[a0]);
        lemma_by_key(rest, a);
        lemma_by_key(sections, a0);
    }
}

/// Adding a section whose key is new to a list with distinct keys adds its
/// history under its key and leaves the others.
proof fn lemma_pushed(sections: Seq<SectionHistory>, section: SectionHistory)
    requires
        distinct_keys(sections),
        !by_key(sections).dom().contains(key_of(section)),
    ensures
        distinct_keys(sections.push(section)),
        by_key(sections.push(section)) == by_key(sections).insert(key_of(section), section.items@),
{
    let more = sections.push(section);
    let key = key_of(section);
    assert forall|a: int, b: int| 0 <= a < b < more.len() implies key_of(more[a]) != key_of(
        more[b],
    ) by {
        if b == sections.len() {
            if key_of(sections[a]) == key {
                assert(holds_at(sections, key, a));
            }
        }
    }
    let left = by_key(more);
    let right = by_key(sections).insert(key, section.items@);
    assert forall|k: SectionKey| left.dom().contains(k) <==> right.dom().contains(k) by {
        if left.dom().contains(k) {
            let a = choose|a: int| holds_at(more, k, a);
            if a < sections.len() {
                assert(holds_at(sections, k, a));
            }
        }
        if right.dom().contains(k) {
            if k == key {
                assert(holds_at(more, k, sections.len() as int));
            } else {
                let a = choose|a: int| holds_at(sections, k, a);
                assert(holds_at(more, k, a));
            }
        }
    }
    assert forall|k: SectionKey| left.dom().contains(k) implies left[k] == right[k] by {
        let a = choose|a: int| holds_at(more, k, a);
        if a < sections.len() {
            lemma_by_key(sections, a);
        }
    }
}

/// Two lists with the same keys and the same histories, position by
/// position, have the same histories by key.
proof fn lemma_same_keys(a: Seq<SectionHistory>, b: Seq<SectionHistory>)
    requires
        distinct_keys(a),
        a.len() == b.len(),
        forall|k: int|
            0 <= k < a.len() ==> key_of(#[trigger] b[k]) == key_of(a[k]) && b[k].items@
                == a[k].items@,
    ensures
        distinct_keys(b),
        by_key(b) == by_key(a),
{
    assert forall|k: SectionKey| by_key(b).dom().contains(k) <==> by_key(a).dom().contains(k) by {
        if by_key(b).dom().contains(k) {
            let i = choose|i: int| holds_at(b, k, i);
            assert(holds_at(a, k, i));
        }
        if by_key(a).dom().contains(k) {
            let i = choose|i: int| holds_at(a, k, i);
            assert(holds_at(b, k, i));
        }
    }
    assert forall|k: SectionKey| by_key(b).dom().contains(k) implies by_key(b)[k] == by_key(
        a,
    )[k] by {
        let i = choose|i: int| holds_at(b, k, i);
        lemma_by_key(b, i);
        lemma_by_key(a, i);
    }
}

/// A list with distinct keys has as many keys as sections.
proof fn lemma_count(sections: Seq<SectionHistory>)
    requires
        distinct_keys(sections),
    ensures
        by_key(sections).dom().finite(),
        by_key(sections).dom().len() == sections.len(),
    decreases sections.len(),
{
    if sections.len() == 0 {
        assert(by_key(sections).dom() =~= Set::<SectionKey>::empty());
    } else {
        let i = sections.len() - 1;
        lemma_removed(sections, i);
        lemma_count(sections.remove(i));
        lemma_by_key(sections, i);
    }
}

} // verus!
