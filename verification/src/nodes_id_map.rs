//! The nodes of a contact plan, and the map from their names to their
//! identifiers.
//!
//! A node is found under its name whatever the case of its letters: the
//! map is keyed by the lowercase of each name, and a name that is looked
//! up is lowered before the search.

use crate::error::ConstructionError;
use crate::text::{lowercase_of, str_equal, to_lowercase};
use crate::types::NodeID;
use vstd::prelude::*;

verus! {

/// A node as the contact plan declares it.
#[derive(Clone, Debug, PartialEq, Eq)]
pub struct Node {
    pub id: NodeID,
    pub name: String,
}

/// The map that a list of entries gives: each identifier is entered under
/// its key, one after the other, so that of two entries with one key the
/// later one stays.
pub open spec fn map_of_entries(entries: Seq<(Seq<char>, NodeID)>) -> Map<Seq<char>, NodeID>
    decreases entries.len(),
{
    if entries.len() == 0 {
        Map::empty()
    } else {
        map_of_entries(entries.drop_last()).insert(entries.last().0, entries.last().1)
    }
}

/// The entries that a list of nodes gives: each node's identifier, under
/// the lowercase of its name.
pub open spec fn entries_of(nodes: Seq<Node>) -> Seq<(Seq<char>, NodeID)> {
    nodes.map_values(|node: Node| (lowercase_of(node.name@), node.id))
}

/// The map from names to identifiers that a list of nodes gives: each
/// node is entered under the lowercase of its name.
pub open spec fn nodes_id_map_of(nodes: Seq<Node>) -> Map<Seq<char>, NodeID> {
    map_of_entries(entries_of(nodes))
}

/// Whether no two nodes of the list have the same name, up to the case of
/// its letters.
pub open spec fn names_are_distinct(nodes: Seq<Node>) -> bool {
    forall|i: int, j: int|
        0 <= i < j < nodes.len() ==> lowercase_of(nodes[i].name@) != lowercase_of(nodes[j].name@)
}

/// Whether the node at this position is the first of the list whose name
/// an earlier node has already, up to the case of its letters.
pub open spec fn is_first_repeat(nodes: Seq<Node>, position: int) -> bool {
    &&& 0 <= position < nodes.len()
    &&& names_are_distinct(nodes.take(position))
    &&& exists|i: int|
        0 <= i < position && lowercase_of(nodes[i].name@) == lowercase_of(nodes[position].name@)
}

/// Whether a node of the list has this identifier.
pub open spec fn declares(nodes: Seq<Node>, id: NodeID) -> bool {
    exists|i: int| 0 <= i < nodes.len() && nodes[i].id == id
}

/// A key that no entry has is not in the map.
pub proof fn lemma_absent_key(entries: Seq<(Seq<char>, NodeID)>, key: Seq<char>)
    requires
        forall|i: int| 0 <= i < entries.len() ==> entries[i].0 != key,
    ensures
        !map_of_entries(entries).contains_key(key),
    decreases entries.len(),
{
    if entries.len() > 0 {
        lemma_absent_key(entries.drop_last(), key);
    }
}

/// A key is mapped to the identifier of the last entry that has it.
pub proof fn lemma_last_of_key(entries: Seq<(Seq<char>, NodeID)>, position: int)
    requires
        0 <= position < entries.len(),
        forall|i: int| position < i < entries.len() ==> entries[i].0 != entries[position].0,
    ensures
        map_of_entries(entries).contains_key(entries[position].0),
        map_of_entries(entries)[entries[position].0] == entries[position].1,
    decreases entries.len(),
{
    if position < entries.len() - 1 {
        lemma_last_of_key(entries.drop_last(), position);
    }
}

/// Where the names are distinct, the map holds the lowercase names of the
/// nodes and no other key, and sends each of them to the identifier of
/// its node.
pub proof fn lemma_distinct_names(nodes: Seq<Node>)
    requires
        names_are_distinct(nodes),
    ensures
        forall|i: int|
            0 <= i < nodes.len() ==> nodes_id_map_of(nodes).contains_key(
                lowercase_of(#[trigger] nodes[i].name@),
            ) && nodes_id_map_of(nodes)[lowercase_of(nodes[i].name@)] == nodes[i].id,
        forall|key: Seq<char>| #[trigger]
            nodes_id_map_of(nodes).contains_key(key) ==> exists|i: int|
                0 <= i < nodes.len() && lowercase_of(nodes[i].name@) == key,
{
    let entries = entries_of(nodes);
    assert forall|i: int| 0 <= i < nodes.len() implies nodes_id_map_of(nodes).contains_key(
        lowercase_of(#[trigger] nodes[i].name@),
    ) && nodes_id_map_of(nodes)[lowercase_of(nodes[i].name@)] == nodes[i].id by {
        lemma_last_of_key(entries, i);
    }
    assert forall|key: Seq<char>| #[trigger]
        nodes_id_map_of(nodes).contains_key(key) implies exists|i: int|
        0 <= i < nodes.len() && lowercase_of(nodes[i].name@) == key by {
        if forall|i: int| 0 <= i < nodes.len() ==> lowercase_of(nodes[i].name@) != key {
            lemma_absent_key(entries, key);
        }
    }
}

/// A map from texts to the identifiers of nodes. A key is matched
/// exactly: who keys the map by lowercase names looks up lowercase names.
#[derive(Clone, Debug)]
pub struct NodesIdMap {
    entries: Vec<(String, NodeID)>,
}

/// The entries of the map as texts.
spec fn texts(entries: Seq<(String, NodeID)>) -> Seq<(Seq<char>, NodeID)> {
    entries.map_values(|entry: (String, NodeID)| (entry.0@, entry.1))
}

impl View for NodesIdMap {
    type V = Map<Seq<char>, NodeID>;

    closed spec fn view(&self) -> Map<Seq<char>, NodeID> {
        map_of_entries(texts(self.entries@))
    }
}

impl NodesIdMap {
    /// The map that holds no key.
    pub fn new() -> (map: Self)
        ensures
            map@ == Map::<Seq<char>, NodeID>::empty(),
    {
        NodesIdMap { entries: Vec::new() }
    }

    /// Enters an identifier under a key. An earlier entry under the same
    /// key is replaced.
    pub fn insert(&mut self, key: String, id: NodeID)
        ensures
            final(self)@ == old(self)@.insert(key@, id),
    {
        let ghost before = texts(self.entries@);
        self.entries.push((key, id));
        assert(texts(self.entries@).drop_last() =~= before);
    }

    /// The identifier entered under exactly this key, if there is one.
    pub fn get(&self, key: &str) -> (id: Option<NodeID>)
        ensures
            id == if self@.contains_key(key@) {
                Some(self@[key@])
            } else {
                None
            },
    {
        let mut i: usize = self.entries.len();
        while i > 0
            invariant
                i <= self.entries@.len(),
                forall|k: int| i <= k < self.entries@.len() ==> self.entries@[k].0@ != key@,
            decreases i,
        {
            i -= 1;
            if str_equal(self.entries[i].0.as_str(), key) {
                proof {
                    lemma_last_of_key(texts(self.entries@), i as int);
                }
                return Some(self.entries[i].1);
            }
        }
        proof {
            lemma_absent_key(texts(self.entries@), key@);
        }
        None
    }
}

/// Makes the map from the names of the nodes to their identifiers, keyed
/// by the lowercase of each name.
///
/// The names of a contact plan are unique, whatever the case of their
/// letters. Where a node has the name of an earlier one, no map is made:
/// the error carries the name of the first such node, as it is declared.
pub fn make_nodes_id_map(nodes: &Vec<Node>) -> (made: Result<NodesIdMap, ConstructionError>)
    ensures
        made is Ok <==> names_are_distinct(nodes@),
        match made {
            Ok(map) => map@ == nodes_id_map_of(nodes@),
            Err(error) => error matches ConstructionError::DuplicateNodeName(name) && exists|
                position: int,
            |
                is_first_repeat(nodes@, position) && name@ == nodes@[position].name@,
        },
{
    let mut nodes_id_map = NodesIdMap::new();
    let mut j: usize = 0;
    while j < nodes.len()
        invariant
            j <= nodes@.len(),
            names_are_distinct(nodes@.take(j as int)),
            nodes_id_map@ == nodes_id_map_of(nodes@.take(j as int)),
        decreases nodes@.len() - j,
    {
        let node = &nodes[j];
        let key = to_lowercase(node.name.as_str());
        let ghost seen = nodes@.take(j as int);
        proof {
            lemma_distinct_names(seen);
        }
        if nodes_id_map.get(key.as_str()).is_some() {
            proof {
                let i = choose|i: int| 0 <= i < j && lowercase_of(seen[i].name@) == key@;
                assert(seen[i] == nodes@[i]);
                assert(is_first_repeat(nodes@, j as int));
            }
            return Err(ConstructionError::DuplicateNodeName(node.name.clone()));
        }
        nodes_id_map.insert(key, node.id);
        proof {
            let next = nodes@.take(j + 1);
            assert(entries_of(next).drop_last() =~= entries_of(seen));
            assert forall|a: int, b: int| 0 <= a < b < next.len() implies lowercase_of(
                next[a].name@,
            ) != lowercase_of(next[b].name@) by {
                assert(next[a] == seen[a]);
                if b < j {
                    assert(next[b] == seen[b]);
                }
            }
        }
        j += 1;
    }
    assert(nodes@.take(j as int) =~= nodes@);
    Ok(nodes_id_map)
}

} // verus!
