use vstd::prelude::*;

use crate::pose::str_eq;
use crate::types::{BlockRef, Direction};

verus! {

/// The entries as a map from property name to value: a later entry for a name
/// wins over an earlier one.
pub open spec fn entries_map(entries: Seq<(String, String)>) -> Map<Seq<char>, Seq<char>>
    decreases entries.len(),
{
    if entries.len() == 0 {
        Map::empty()
    } else {
        entries_map(entries.drop_last()).insert(entries.last().0@, entries.last().1@)
    }
}

/// No property name occurs twice among the entries.
pub open spec fn names_unique(entries: Seq<(String, String)>) -> bool {
    forall|i: int, j: int|
        0 <= i < entries.len() && 0 <= j < entries.len() && i != j ==> entries[i].0@ != entries[j].0@
}

/// With unique names, the map holds exactly the entries' names, each with its value.
proof fn lemma_entries_map(entries: Seq<(String, String)>)
    requires
        names_unique(entries),
    ensures
        forall|i: int|
            0 <= i < entries.len() ==> #[trigger] entries_map(entries).contains_key(entries[i].0@)
                && entries_map(entries)[entries[i].0@] == entries[i].1@,
        forall|k: Seq<char>|
            #[trigger] entries_map(entries).contains_key(k) ==> exists|i: int|
                0 <= i < entries.len() && entries[i].0@ == k,
    decreases entries.len(),
{
    if entries.len() > 0 {
        let init = entries.drop_last();
        assert(names_unique(init));
        lemma_entries_map(init);
        let last = entries.len() - 1;
        assert forall|i: int| 0 <= i < entries.len() implies #[trigger] entries_map(entries).contains_key(
            entries[i].0@,
        ) && entries_map(entries)[entries[i].0@] == entries[i].1@ by {
            if i < last {
                assert(init[i] == entries[i]);
                assert(entries_map(init).contains_key(init[i].0@));
            }
        }
        assert forall|k: Seq<char>| #[trigger] entries_map(entries).contains_key(k) implies exists|
            i: int,
        | 0 <= i < entries.len() && entries[i].0@ == k by {
            if k != entries[last].0@ {
                assert(entries_map(init).contains_key(k));
                let i = choose|i: int| 0 <= i < init.len() && init[i].0@ == k;
                assert(entries[i] == init[i]);
            }
        }
    }
}

/// The block-state properties an item carries, such as the pose of a statue
/// item: a map from property name to value.
#[derive(Debug, PartialEq, Eq)]
pub struct BlockItemStateProperties {
    entries: Vec<(String, String)>,
}

impl View for BlockItemStateProperties {
    type V = Map<Seq<char>, Seq<char>>;

    closed spec fn view(&self) -> Map<Seq<char>, Seq<char>> {
        entries_map(self.entries@)
    }
}

impl BlockItemStateProperties {
    #[verifier::type_invariant]
    spec fn names_are_unique(self) -> bool {
        names_unique(self.entries@)
    }

    /// Properties holding nothing.
    pub fn new() -> (r: Self)
        ensures
            r@ == Map::<Seq<char>, Seq<char>>::empty(),
    {
        BlockItemStateProperties { entries: Vec::new() }
    }

    /// Sets property `name` to `value`, replacing the value it had.
    pub fn insert(&mut self, name: String, value: String)
        ensures
            final(self)@ == old(self)@.insert(name@, value@),
    {
        proof {
            use_type_invariant(&*self);
        }
        let mut entries: Vec<(String, String)> = Vec::new();
        std::mem::swap(&mut entries, &mut self.entries);
        let ghost before = entries@;
        proof {
            lemma_entries_map(before);
        }
        let n = entries.len();
        let mut i: usize = 0;
        while i < n
            invariant
                n == entries.len(),
                entries@ == before,
                old(self)@ == entries_map(before),
                names_unique(before),
                0 <= i <= n,
                forall|j: int| 0 <= j < i ==> before[j].0@ != name@,
            decreases n - i,
        {
            if entries[i].0 == name {
                entries.set(i, (name, value));
                proof {
                    lemma_entries_map(before);
                    assert(names_unique(entries@));
                    lemma_entries_map(entries@);
                    assert(entries_map(entries@) =~= entries_map(before).insert(name@, value@)) by {
                        assert forall|k: Seq<char>| #[trigger]
                            entries_map(entries@).contains_key(k) == entries_map(before).insert(
                                name@,
                                value@,
                            ).contains_key(k) by {
                            if entries_map(entries@).contains_key(k) {
                                let m = choose|m: int| 0 <= m < entries@.len() && entries@[m].0@ == k;
                                assert(before[m].0@ == k);
                            }
                            if entries_map(before).contains_key(k) {
                                let m = choose|m: int| 0 <= m < before.len() && before[m].0@ == k;
                                assert(entries@[m].0@ == k);
                            }
                        }
                        assert forall|k: Seq<char>| #[trigger]
                            entries_map(entries@).contains_key(k) implies entries_map(entries@)[k]
                            == entries_map(before).insert(name@, value@)[k] by {
                            let m = choose|m: int| 0 <= m < entries@.len() && entries@[m].0@ == k;
                            if m != i as int {
                                assert(before[m] == entries@[m]);
                            }
                        }
                    }
                }
                self.entries = entries;
                return ;
            }
            i = i + 1;
        }
        entries.push((name, value));
        proof {
            assert(entries@.drop_last() =~= before);
            assert(names_unique(entries@)) by {
                assert forall|a: int, b: int|
                    0 <= a < entries@.len() && 0 <= b < entries@.len() && a != b implies entries@[a].0@
                    != entries@[b].0@ by {
                    if a < n as int && b < n as int {
                        assert(entries@[a] == before[a]);
                        assert(entries@[b] == before[b]);
                    } else if a < n as int {
                        assert(entries@[a] == before[a]);
                    } else {
                        assert(entries@[b] == before[b]);
                    }
                }
            }
        }
        self.entries = entries;
    }

    /// The value of property `name`, if the properties hold it.
    pub fn get(&self, name: &str) -> (r: Option<&String>)
        ensures
            r is Some <==> self@.contains_key(name@),
            r matches Some(v) ==> v@ == self@[name@],
    {
        proof {
            use_type_invariant(self);
            lemma_entries_map(self.entries@);
        }
        let n = self.entries.len();
        let mut i: usize = 0;
        while i < n
            invariant
                n == self.entries.len(),
                0 <= i <= n,
                forall|j: int| 0 <= j < i ==> self.entries@[j].0@ != name@,
            decreases n - i,
        {
            if str_eq(self.entries[i].0.as_str(), name) {
                proof {
                    use_type_invariant(self);
                    lemma_entries_map(self.entries@);
                }
                return Some(&self.entries[i].1);
            }
            i = i + 1;
        }
        None
    }
}

/// A stack of items: the block item of `item`, how many, and the block-state
/// properties it carries, if any.
#[derive(Debug, PartialEq, Eq)]
pub struct ItemStack {
    pub item: BlockRef,
    pub count: u32,
    pub block_state: Option<BlockItemStateProperties>,
}

impl ItemStack {
    /// One item of `item`, carrying no properties.
    pub fn new(item: BlockRef) -> (r: Self)
        ensures
            r.item == item,
            r.count == 1,
            r.block_state is None,
    {
        ItemStack { item, count: 1, block_state: None }
    }

    /// Sets the block-state properties the stack carries.
    pub fn set_block_state(&mut self, props: BlockItemStateProperties)
        ensures
            final(self).item == old(self).item,
            final(self).count == old(self).count,
            final(self).block_state == Some(props),
    {
        self.block_state = Some(props);
    }
}

/// What placing a block reads of its context: the horizontal direction the
/// player looks in, whether the target position holds a water source, and the
/// item being placed.
#[derive(Debug, PartialEq, Eq)]
pub struct BlockPlaceContext {
    pub horizontal_direction: Direction,
    pub water_source: bool,
    pub item: ItemStack,
}

} // verus!
