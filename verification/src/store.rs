use crate::notifications::types::{NotificationData, NotificationDataView};
use vstd::hash_map::StringHashMap;
use vstd::prelude::*;

verus! {

broadcast use vstd::hash_map::group_hash_map_axioms;

/// The table from the tag of each notification that was sent to what is
/// kept of it. Nothing is ever taken out of it.
pub struct CorrelationStore {
    entries: StringHashMap<NotificationData>,
}

impl View for CorrelationStore {
    type V = Map<Seq<char>, NotificationDataView>;

    closed spec fn view(&self) -> Map<Seq<char>, NotificationDataView> {
        self.entries@.map_values(|data: NotificationData| data@)
    }
}

impl CorrelationStore {
    /// The table holds finitely many entries.
    #[verifier::type_invariant]
    spec fn holds_finitely_many(&self) -> bool {
        self.entries@.dom().finite()
    }

    /// A table without entries.
    pub fn new() -> (store: Self)
        ensures
            store@ == Map::<Seq<char>, NotificationDataView>::empty(),
            store@.dom().finite(),
    {
        let store = CorrelationStore { entries: StringHashMap::new() };
        assert(store@.dom() =~= store.entries@.dom());
        store
    }

    /// The number of entries, of which there are finitely many.
    pub fn len(&self) -> (n: usize)
        ensures
            n == self@.len(),
            self@.dom().finite(),
    {
        proof {
            use_type_invariant(self);
            assert(self@.dom() =~= self.entries@.dom());
        }
        self.entries.len()
    }

    /// Whether `tag` has an entry.
    pub fn contains(&self, tag: &str) -> (present: bool)
        ensures
            present == self@.contains_key(tag@),
            self@.dom().finite(),
    {
        proof {
            use_type_invariant(self);
            assert(self@.dom() =~= self.entries@.dom());
        }
        self.entries.contains_key(tag)
    }

    /// Enters `data` under `tag`, which must be new to the table. Every
    /// other entry stays as it was, so the table grows by one entry.
    pub fn insert(&mut self, tag: String, data: NotificationData)
        requires
            !old(self)@.contains_key(tag@),
        ensures
            final(self)@ == old(self)@.insert(tag@, data@),
            final(self)@.dom().finite(),
            final(self)@.len() == old(self)@.len() + 1,
    {
        proof {
            use_type_invariant(&*self);
            assert(self@.dom() =~= self.entries@.dom());
        }
        // The map is taken out while it is changed, so that the table holds
        // a finite map at every moment.
        let mut entries: StringHashMap<NotificationData> = StringHashMap::new();
        std::mem::swap(&mut self.entries, &mut entries);
        entries.insert(tag, data);
        std::mem::swap(&mut self.entries, &mut entries);
        proof {
            assert(self@.dom() =~= self.entries@.dom());
            assert(self@ =~= old(self)@.insert(tag@, data@));
        }
    }

    /// Enters `data` under `tag` where `tag` is new to the table, and says
    /// whether it was. A table that already holds `tag` is left unchanged.
    pub fn try_insert(&mut self, tag: String, data: NotificationData) -> (entered: bool)
        ensures
            entered == !old(self)@.contains_key(tag@),
            entered ==> final(self)@ == old(self)@.insert(tag@, data@),
            entered ==> final(self)@.len() == old(self)@.len() + 1,
            !entered ==> final(self)@ == old(self)@,
            final(self)@.dom().finite(),
    {
        if self.contains(tag.as_str()) {
            false
        } else {
            self.insert(tag, data);
            true
        }
    }

    /// What is kept under `tag`. That a tag has no entry is an ordinary
    /// outcome: the notification may stem from an earlier run.
    pub fn lookup(&self, tag: &str) -> (found: Option<&NotificationData>)
        ensures
            match found {
                Some(data) => self@.contains_key(tag@) && self@[tag@] == data@,
                None => !self@.contains_key(tag@),
            },
    {
        self.entries.get(tag)
    }
}

/// One entry was made: `tag` was new to the table `before`, and `after` is
/// `before` with `data` entered under `tag`.
pub open spec fn is_entered(
    before: Map<Seq<char>, NotificationDataView>,
    tag: Seq<char>,
    data: NotificationDataView,
    after: Map<Seq<char>, NotificationDataView>,
) -> bool {
    !before.contains_key(tag) && after == before.insert(tag, data)
}

/// The tables `tables[0]`, .., `tables[n]` come one from the other by the
/// entries `tags[i] -> data[i]`, as they do where each of `n` sends
/// succeeded.
pub open spec fn is_run_of_entries(
    tables: Seq<Map<Seq<char>, NotificationDataView>>,
    tags: Seq<Seq<char>>,
    data: Seq<NotificationDataView>,
) -> bool {
    &&& tables.len() == tags.len() + 1
    &&& data.len() == tags.len()
    &&& forall|i: int|
        0 <= i < tags.len() ==> is_entered(tables[i], #[trigger] tags[i], data[i], tables[i + 1])
}

/// What holds of the table after the first `n` entries of a run.
proof fn lemma_run_up_to(
    tables: Seq<Map<Seq<char>, NotificationDataView>>,
    tags: Seq<Seq<char>>,
    data: Seq<NotificationDataView>,
    n: int,
)
    requires
        is_run_of_entries(tables, tags, data),
        tables[0].dom().finite(),
        0 <= n <= tags.len(),
    ensures
        tables[n].dom().finite(),
        tables[n].len() == tables[0].len() + n,
        forall|i: int|
            0 <= i < n ==> tables[n].contains_key(#[trigger] tags[i]) && tables[n][tags[i]]
                == data[i],
        forall|tag: Seq<char>| #[trigger]
            tables[0].contains_key(tag) ==> tables[n].contains_key(tag) && tables[n][tag]
                == tables[0][tag],
    decreases n,
{
    if n > 0 {
        lemma_run_up_to(tables, tags, data, n - 1);
        assert(is_entered(tables[n - 1], tags[n - 1], data[n - 1], tables[n]));
        assert forall|i: int| 0 <= i < n implies tables[n].contains_key(#[trigger] tags[i])
            && tables[n][tags[i]] == data[i] by {
            if i < n - 1 {
                assert(tables[n - 1].contains_key(tags[i]));
            }
        }
    }
}

/// Sends that all succeed leave one entry each: their tags differ from
/// each other and from every tag that the table held before, the table has
/// grown by the number of sends, each tag leads to what was entered under
/// it, and what the table held before is still there. This holds in
/// whatever order the sends took their turns.
pub proof fn lemma_sends_give_distinct_entries(
    tables: Seq<Map<Seq<char>, NotificationDataView>>,
    tags: Seq<Seq<char>>,
    data: Seq<NotificationDataView>,
)
    requires
        is_run_of_entries(tables, tags, data),
        tables[0].dom().finite(),
    ensures
        forall|i: int, j: int| 0 <= i < j < tags.len() ==> tags[i] != tags[j],
        forall|i: int| 0 <= i < tags.len() ==> !tables[0].contains_key(#[trigger] tags[i]),
        tables.last().dom().finite(),
        tables.last().len() == tables[0].len() + tags.len(),
        forall|i: int|
            0 <= i < tags.len() ==> tables.last().contains_key(#[trigger] tags[i])
                && tables.last()[tags[i]] == data[i],
        forall|tag: Seq<char>| #[trigger]
            tables[0].contains_key(tag) ==> tables.last().contains_key(tag) && tables.last()[tag]
                == tables[0][tag],
{
    lemma_run_up_to(tables, tags, data, tags.len() as int);
    assert forall|i: int, j: int| 0 <= i < j < tags.len() implies tags[i] != tags[j] by {
        lemma_run_up_to(tables, tags, data, j);
        assert(is_entered(tables[j], tags[j], data[j], tables[j + 1]));
        assert(tables[j].contains_key(tags[i]));
    }
    assert forall|i: int| 0 <= i < tags.len() implies !tables[0].contains_key(
        #[trigger] tags[i],
    ) by {
        lemma_run_up_to(tables, tags, data, i);
        assert(is_entered(tables[i], tags[i], data[i], tables[i + 1]));
    }
}

} // verus!
