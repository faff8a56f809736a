use vstd::prelude::*;

verus! {

/// The map that a list of key/value pairs gives when they are inserted one
/// after the other: a later pair replaces an earlier one with the same key.
pub open spec fn entries_map<V>(entries: Seq<(String, V)>) -> Map<Seq<char>, V>
    decreases entries.len(),
{
    if entries.len() == 0 {
        Map::empty()
    } else {
        entries_map(entries.drop_last()).insert(entries.last().0@, entries.last().1)
    }
}

/// No two pairs of the list have the same key.
pub open spec fn keys_distinct<V>(entries: Seq<(String, V)>) -> bool {
    forall|i: int, j: int|
        0 <= i < j < entries.len() ==> #[trigger] entries[i].0@ != #[trigger] entries[j].0@
}

/// The arguments of a mutation: each field name with the value it is set
/// to. A name occurs at most once.
pub struct PrismaArgs<V> {
    entries: Vec<(String, V)>,
}

impl<V> View for PrismaArgs<V> {
    type V = Map<Seq<char>, V>;

    closed spec fn view(&self) -> Map<Seq<char>, V> {
        entries_map(self.entries@)
    }
}

/// The keys of the map that a list gives are the keys that occur in it.
pub proof fn lemma_entries_map_dom<V>(entries: Seq<(String, V)>, key: Seq<char>)
    ensures
        entries_map(entries).contains_key(key) <==> exists|i: int|
            0 <= i < entries.len() && (#[trigger] entries[i]).0@ == key,
    decreases entries.len(),
{
    if entries.len() > 0 {
        let prefix = entries.drop_last();
        lemma_entries_map_dom(prefix, key);
        if entries_map(prefix).contains_key(key) {
            let i = choose|i: int| 0 <= i < prefix.len() && (#[trigger] prefix[i]).0@ == key;
            assert(entries[i] == prefix[i]);
        }
        if exists|i: int| 0 <= i < entries.len() && (#[trigger] entries[i]).0@ == key {
            let i = choose|i: int| 0 <= i < entries.len() && (#[trigger] entries[i]).0@ == key;
            if i < entries.len() - 1 {
                assert(prefix[i] == entries[i]);
            }
        }
    }
}

/// Each key of the list is mapped to the value of the last pair with that
/// key.
pub proof fn lemma_last_value_wins<V>(entries: Seq<(String, V)>, i: int)
    requires
        0 <= i < entries.len(),
        forall|j: int| i < j < entries.len() ==> (#[trigger] entries[j]).0@ != entries[i].0@,
    ensures
        entries_map(entries).contains_key(entries[i].0@),
        entries_map(entries)[entries[i].0@] == entries[i].1,
    decreases entries.len(),
{
    if i < entries.len() - 1 {
        let prefix = entries.drop_last();
        assert forall|j: int| i < j < prefix.len() implies (#[trigger] prefix[j]).0@
            != prefix[i].0@ by {
            assert(prefix[j] == entries[j]);
        }
        lemma_last_value_wins(prefix, i);
        assert(entries.last() == entries[entries.len() - 1]);
    }
}

/// Replacing the value of a key that occurs once in a list replaces the
/// value of that key in its map, and nothing else.
proof fn lemma_update_replaces<V>(entries: Seq<(String, V)>, i: int, key: String, value: V)
    requires
        0 <= i < entries.len(),
        keys_distinct(entries),
        entries[i].0@ == key@,
    ensures
        entries_map(entries.update(i, (key, value))) == entries_map(entries).insert(key@, value),
        keys_distinct(entries.update(i, (key, value))),
    decreases entries.len(),
{
    let updated = entries.update(i, (key, value));
    assert forall|a: int, b: int| 0 <= a < b < updated.len() implies #[trigger] updated[a].0@
        != #[trigger] updated[b].0@ by {
        assert(updated[a].0@ == entries[a].0@);
        assert(updated[b].0@ == entries[b].0@);
    }
    let prefix = entries.drop_last();
    if i == entries.len() - 1 {
        assert(updated.drop_last() =~= prefix);
        assert(entries_map(updated) =~= entries_map(entries).insert(key@, value));
    } else {
        assert(updated.drop_last() =~= prefix.update(i, (key, value)));
        assert forall|a: int, b: int| 0 <= a < b < prefix.len() implies #[trigger] prefix[a].0@
            != #[trigger] prefix[b].0@ by {
            assert(prefix[a] == entries[a]);
            assert(prefix[b] == entries[b]);
        }
        lemma_update_replaces(prefix, i, key, value);
        let last = entries.last();
        assert(last == entries[entries.len() - 1]);
        assert(updated.last() == last);
        assert(last.0@ != key@);
        assert(entries_map(updated) =~= entries_map(entries).insert(key@, value));
    }
}

impl<V> PrismaArgs<V> {
    #[verifier::type_invariant]
    closed spec fn keys_are_distinct(self) -> bool {
        keys_distinct(self.entries@)
    }

    /// No arguments.
    pub fn new() -> (args: Self)
        ensures
            args@ == Map::<Seq<char>, V>::empty(),
    {
        let args = PrismaArgs { entries: Vec::new() };
        assert(args@ =~= Map::<Seq<char>, V>::empty());
        args
    }

    /// Sets `key` to `value`, in place of any value it had.
    pub fn insert(&mut self, key: String, value: V)
        ensures
            final(self)@ == old(self)@.insert(key@, value),
    {
        proof {
            use_type_invariant(&*self);
        }
        let ghost start = self.entries@;
        let n = self.entries.len();
        let mut i: usize = 0;
        while i < n
            invariant
                n == self.entries.len(),
                i <= n,
                self.entries@ == start,
                start == old(self).entries@,
                keys_distinct(start),
                forall|j: int| 0 <= j < i ==> (#[trigger] start[j]).0@ != key@,
            decreases n - i,
        {
            if self.entries[i].0 == key {
                proof {
                    lemma_update_replaces(self.entries@, i as int, key, value);
                }
                let mut entries = Vec::new();
                std::mem::swap(&mut entries, &mut self.entries);
                entries.set(i, (key, value));
                self.entries = entries;
                return ;
            }
            i = i + 1;
        }
        let ghost before = self.entries@;
        let mut entries = Vec::new();
        std::mem::swap(&mut entries, &mut self.entries);
        entries.push((key, value));
        proof {
            assert(entries@.drop_last() =~= before);
            assert forall|a: int, b: int| 0 <= a < b < entries@.len() implies #[trigger] entries@[a].0@
                != #[trigger] entries@[b].0@ by {
                assert(entries@[a] == start[a]);
                if b < before.len() {
                    assert(entries@[b] == start[b]);
                } else {
                    assert(entries@[b] == (key, value));
                    assert(start[a].0@ != key@);
                }
            }
            assert(entries_map(entries@) == entries_map(before).insert(key@, value));
        }
        self.entries = entries;
    }

    /// The arguments as a list of pairs, each name once.
    pub fn into_entries(self) -> (entries: Vec<(String, V)>)
        ensures
            entries_map(entries@) == self@,
            keys_distinct(entries@),
    {
        proof {
            use_type_invariant(&self);
        }
        self.entries
    }
}

impl<V> Default for PrismaArgs<V> {
    fn default() -> (args: Self)
        ensures
            args@ == Map::<Seq<char>, V>::empty(),
    {
        PrismaArgs::new()
    }
}

/// The arguments that a list of key/value pairs sets, inserted in order:
/// where a key occurs twice, its last value stands.
pub fn convert_prisma_args<V>(pairs: Vec<(String, V)>) -> (args: PrismaArgs<V>)
    ensures
        args@ == entries_map(pairs@),
{
    let mut args = PrismaArgs::default();
    let ghost total = pairs@;
    let total_len = pairs.len();
    let mut source = pairs;
    let mut rest: Vec<(String, V)> = Vec::new();
    while source.len() > 0
        invariant
            source@.len() + rest@.len() == total.len(),
            total.len() == total_len,
            forall|j: int| 0 <= j < source@.len() ==> #[trigger] source@[j] == total[j],
            forall|j: int| 0 <= j < rest@.len() ==> #[trigger] rest@[j] == total[total.len() - 1 - j],
        decreases source@.len(),
    {
        let ghost before = source@;
        let pair = source.pop().unwrap();
        proof {
            assert(pair == total[before.len() - 1]);
            assert(forall|j: int| 0 <= j < source@.len() ==> #[trigger] source@[j] == before[j]);
        }
        rest.push(pair);
    }
    let mut done: usize = 0;
    while rest.len() > 0
        invariant
            done + rest@.len() == total.len(),
            total.len() == total_len,
            forall|j: int| 0 <= j < rest@.len() ==> #[trigger] rest@[j] == total[total.len() - 1 - j],
            args@ == entries_map(total.take(done as int)),
        decreases rest@.len(),
    {
        let ghost before = rest@;
        let pair = rest.pop().unwrap();
        proof {
            assert(pair == before[before.len() - 1]);
            assert(pair == total[done as int]);
            assert(total.take(done as int + 1).drop_last() =~= total.take(done as int));
            assert(forall|j: int| 0 <= j < rest@.len() ==> #[trigger] rest@[j] == before[j]);
        }
        let (key, value) = pair;
        args.insert(key, value);
        done = done + 1;
    }
    proof {
        assert(total.take(done as int) =~= total);
    }
    args
}

} // verus!
