//! Nodes of the traffic tree, keyed by their identifiers.

use vstd::prelude::*;

verus! {

/// Identifier of a node of the traffic tree.
pub struct TreeNodeId(pub String);

impl View for TreeNodeId {
    type V = Seq<char>;

    open spec fn view(&self) -> Seq<char> {
        self.0@
    }
}

impl TreeNodeId {
    /// The identifier with the given text.
    pub fn new(id: &str) -> (n: TreeNodeId)
        ensures
            n@ == id@,
    {
        TreeNodeId(String::from_str(id))
    }

    /// The identifier with the given text.
    pub fn from_string(id: String) -> (n: TreeNodeId)
        ensures
            n@ == id@,
    {
        TreeNodeId(id)
    }

    /// A copy of the identifier.
    pub fn clone_id(&self) -> (n: TreeNodeId)
        ensures
            n@ == self@,
    {
        TreeNodeId(self.0.clone())
    }

    /// Whether two identifiers have the same text.
    pub fn same_as(&self, other: &TreeNodeId) -> (b: bool)
        ensures
            b == (self@ == other@),
    {
        self.0 == other.0
    }
}

/// What a node of the traffic tree stands for.
#[derive(Clone, Copy, Debug, PartialEq, Eq, Structural)]
pub enum TreeNodeType {
    Root,
    Device,
    Configuration,
    Interface,
    Endpoint,
    Transaction,
    Setup,
    Data,
    Status,
    BulkTransfer,
    InterruptTransfer,
    IsochronousTransfer,
    ClassRequest,
    VendorRequest,
    StandardRequest,
    Unknown,
    Other,
}

/// A node of the traffic tree: its children, whether it is expanded, its
/// text and what it stands for.
pub struct TreeNode {
    pub id: TreeNodeId,
    pub children: Vec<TreeNodeId>,
    pub expanded: bool,
    pub data: String,
    pub item_type: TreeNodeType,
}

/// Model of a node.
pub struct NodeModel {
    pub id: Seq<char>,
    pub children: Seq<Seq<char>>,
    pub expanded: bool,
    pub data: Seq<char>,
    pub item_type: TreeNodeType,
}

/// Model of a list of identifiers.
pub open spec fn ids_model(v: Seq<TreeNodeId>) -> Seq<Seq<char>> {
    Seq::new(v.len(), |i: int| v[i]@)
}

impl View for TreeNode {
    type V = NodeModel;

    open spec fn view(&self) -> NodeModel {
        NodeModel {
            id: self.id@,
            children: ids_model(self.children@),
            expanded: self.expanded,
            data: self.data@,
            item_type: self.item_type,
        }
    }
}

/// A copy of a list of identifiers.
pub fn clone_ids(v: &Vec<TreeNodeId>) -> (r: Vec<TreeNodeId>)
    ensures
        ids_model(r@) == ids_model(v@),
{
    let mut r: Vec<TreeNodeId> = Vec::new();
    let mut i: usize = 0;
    while i < v.len()
        invariant
            i <= v@.len(),
            ids_model(r@) == ids_model(v@.subrange(0, i as int)),
        decreases v@.len() - i,
    {
        let ghost before = ids_model(r@);
        r.push(v[i].clone_id());
        assert(ids_model(r@) =~= before.push(v@[i as int]@));
        assert(ids_model(v@.subrange(0, i + 1)) =~= ids_model(v@.subrange(0, i as int)).push(v@[i as int]@));
        i += 1;
    }
    assert(v@.subrange(0, v@.len() as int) =~= v@);
    r
}

impl TreeNode {
    /// A node without children.
    pub fn leaf(id: TreeNodeId, data: String, item_type: TreeNodeType) -> (n: TreeNode)
        ensures
            n@ == (NodeModel { id: id@, children: Seq::empty(), expanded: true, data: data@, item_type }),
    {
        let n = TreeNode { id, children: Vec::new(), expanded: true, data, item_type };
        assert(ids_model(n.children@) =~= Seq::<Seq<char>>::empty());
        n
    }

    /// A copy of the node.
    pub fn clone_node(&self) -> (n: TreeNode)
        ensures
            n@ == self@,
    {
        TreeNode {
            id: self.id.clone_id(),
            children: clone_ids(&self.children),
            expanded: self.expanded,
            data: self.data.clone(),
            item_type: self.item_type,
        }
    }
}

/// The map after a child is appended to `parent`; unchanged if `parent` is
/// not in it.
pub open spec fn spec_push_child(m: Map<Seq<char>, NodeModel>, parent: Seq<char>, child: Seq<char>) -> Map<Seq<char>, NodeModel> {
    if m.contains_key(parent) {
        m.insert(parent, NodeModel { children: m[parent].children.push(child), ..m[parent] })
    } else {
        m
    }
}

/// The map after the expanded flag of `id` is flipped; unchanged if `id` is
/// not in it.
pub open spec fn spec_toggle(m: Map<Seq<char>, NodeModel>, id: Seq<char>) -> Map<Seq<char>, NodeModel> {
    if m.contains_key(id) {
        m.insert(id, NodeModel { expanded: !m[id].expanded, ..m[id] })
    } else {
        m
    }
}

/// Nodes keyed by identifier, each identifier at most once.
pub struct NodeMap {
    entries: Vec<(TreeNodeId, TreeNode)>,
}

/// Whether no identifier occurs twice.
pub open spec fn keys_distinct(e: Seq<(TreeNodeId, TreeNode)>) -> bool {
    forall|i: int, j: int| 0 <= i < e.len() && 0 <= j < e.len() && i != j ==> e[i].0@ != e[j].0@
}

/// Whether an identifier occurs.
pub open spec fn has_key(e: Seq<(TreeNodeId, TreeNode)>, k: Seq<char>) -> bool {
    exists|i: int| 0 <= i < e.len() && e[i].0@ == k
}

/// Where an identifier occurs.
pub open spec fn key_index(e: Seq<(TreeNodeId, TreeNode)>, k: Seq<char>) -> int {
    choose|i: int| 0 <= i < e.len() && e[i].0@ == k
}

/// The map of a list of entries.
pub open spec fn entries_map(e: Seq<(TreeNodeId, TreeNode)>) -> Map<Seq<char>, NodeModel> {
    Map::new(|k: Seq<char>| has_key(e, k), |k: Seq<char>| e[key_index(e, k)].1@)
}

impl View for NodeMap {
    type V = Map<Seq<char>, NodeModel>;

    closed spec fn view(&self) -> Map<Seq<char>, NodeModel> {
        entries_map(self.entries@)
    }
}

impl NodeMap {
    /// No identifier occurs twice.
    pub closed spec fn wf(&self) -> bool {
        keys_distinct(self.entries@)
    }

    /// An empty map.
    pub fn new() -> (m: NodeMap)
        ensures
            m@ == Map::<Seq<char>, NodeModel>::empty(),
            m.wf(),
    {
        let m = NodeMap { entries: Vec::new() };
        assert(entries_map(m.entries@) =~= Map::<Seq<char>, NodeModel>::empty());
        m
    }

    /// Number of nodes.
    pub fn len(&self) -> (n: usize)
        requires
            self.wf(),
        ensures
            n == self@.dom().len(),
    {
        proof {
            self.lemma_dom_len();
        }
        self.entries.len()
    }

    proof fn lemma_dom_len(&self)
        requires
            keys_distinct(self.entries@),
        ensures
            self@.dom().len() == self.entries@.len(),
            self@.dom().finite(),
    {
        let e = self.entries@;
        let keys = Seq::new(e.len(), |i: int| e[i].0@);
        assert(keys.no_duplicates());
        assert forall|k: Seq<char>| #[trigger] self@.dom().contains(k) == keys.to_set().contains(k) by {
            if has_key(e, k) {
                let j = key_index(e, k);
                assert(keys[j] == k);
            }
            if keys.contains(k) {
                let j = choose|j: int| 0 <= j < keys.len() && keys[j] == k;
                assert(e[j].0@ == k);
            }
        }
        assert(self@.dom() =~= keys.to_set());
        keys.unique_seq_to_set();
    }

    fn find(&self, k: &TreeNodeId) -> (r: Option<usize>)
        ensures
            match r {
                Some(i) => i < self.entries@.len() && self.entries@[i as int].0@ == k@,
                None => !has_key(self.entries@, k@),
            },
    {
        let mut i: usize = 0;
        while i < self.entries.len()
            invariant
                i <= self.entries@.len(),
                forall|j: int| 0 <= j < i ==> self.entries@[j].0@ != k@,
            decreases self.entries@.len() - i,
        {
            if self.entries[i].0.same_as(k) {
                return Some(i);
            }
            i += 1;
        }
        None
    }

    /// The node with the given identifier.
    pub fn get(&self, k: &TreeNodeId) -> (r: Option<&TreeNode>)
        requires
            self.wf(),
        ensures
            match r {
                Some(n) => self@.contains_key(k@) && n@ == self@[k@],
                None => !self@.contains_key(k@),
            },
    {
        match self.find(k) {
            Some(i) => {
                let ghost e = self.entries@;
                assert(has_key(e, k@));
                let ghost j = key_index(e, k@);
                assert(e[j].0@ == k@);
                assert(j == i);
                Some(&self.entries[i].1)
            },
            None => None,
        }
    }

    /// Sets the node of an identifier, replacing any node it had.
    pub fn insert(&mut self, k: TreeNodeId, v: TreeNode)
        requires
            old(self).wf(),
        ensures
            final(self)@ == old(self)@.insert(k@, v@),
            final(self).wf(),
    {
        let ghost e0 = self.entries@;
        let ghost kv = k@;
        let ghost vv = v@;
        match self.find(&k) {
            Some(i) => {
                self.entries.set(i, (k, v));
                proof {
                    let e1 = self.entries@;
                    assert(keys_distinct(e1));
                    assert forall|key: Seq<char>| #[trigger] entries_map(e1).contains_key(key) == entries_map(e0).insert(kv, vv).contains_key(key) by {
                        if has_key(e0, key) {
                            let j = key_index(e0, key);
                            assert(e1[j].0@ == key || j == i);
                        }
                        if has_key(e1, key) {
                            let j = key_index(e1, key);
                            assert(e0[j].0@ == key || j == i);
                        }
                    }
                    assert forall|key: Seq<char>| entries_map(e1).contains_key(key) implies #[trigger] entries_map(e1)[key] == entries_map(e0).insert(kv, vv)[key] by {
                        let j = key_index(e1, key);
                        if key == kv {
                            assert(j == i);
                        } else {
                            assert(has_key(e0, key));
                            let j0 = key_index(e0, key);
                            assert(e0[j0].0@ == key);
                            assert(j0 != i);
                            assert(e1[j0].0@ == key);
                            assert(j0 == j);
                        }
                    }
                    assert(entries_map(e1) =~= entries_map(e0).insert(kv, vv));
                }
            },
            None => {
                self.entries.push((k, v));
                proof {
                    let e1 = self.entries@;
                    let n = e0.len() as int;
                    assert(keys_distinct(e1));
                    assert forall|key: Seq<char>| #[trigger] entries_map(e1).contains_key(key) == entries_map(e0).insert(kv, vv).contains_key(key) by {
                        if has_key(e0, key) {
                            let j = key_index(e0, key);
                            assert(e1[j].0@ == key);
                        }
                        if key == kv {
                            assert(e1[n].0@ == key);
                        }
                        if has_key(e1, key) {
                            let j = key_index(e1, key);
                            if j < n {
                                assert(e0[j].0@ == key);
                            }
                        }
                    }
                    assert forall|key: Seq<char>| entries_map(e1).contains_key(key) implies #[trigger] entries_map(e1)[key] == entries_map(e0).insert(kv, vv)[key] by {
                        let j = key_index(e1, key);
                        if key == kv {
                            assert(e1[n].0@ == key);
                            assert(j == n);
                        } else {
                            let j0 = key_index(e0, key);
                            assert(has_key(e0, key)) by {
                                assert(j < n);
                                assert(e0[j].0@ == key);
                            }
                            assert(e1[j0].0@ == key);
                            assert(j0 == j);
                        }
                    }
                    assert(entries_map(e1) =~= entries_map(e0).insert(kv, vv));
                }
            },
        }
    }

    /// Removes every node.
    pub fn clear(&mut self)
        ensures
            final(self)@ == Map::<Seq<char>, NodeModel>::empty(),
            final(self).wf(),
    {
        self.entries = Vec::new();
        assert(entries_map(self.entries@) =~= Map::<Seq<char>, NodeModel>::empty());
    }

    /// Appends a child to a node; nothing happens if the node is absent.
    pub fn push_child(&mut self, parent: &TreeNodeId, child: TreeNodeId)
        requires
            old(self).wf(),
        ensures
            final(self)@ == spec_push_child(old(self)@, parent@, child@),
            final(self).wf(),
    {
        let updated = match self.get(parent) {
            Some(node) => {
                let mut n = node.clone_node();
                let ghost before = ids_model(n.children@);
                n.children.push(child);
                assert(ids_model(n.children@) =~= before.push(child@));
                Some(n)
            },
            None => None,
        };
        match updated {
            Some(n) => self.insert(parent.clone_id(), n),
            None => {},
        }
    }

    /// Flips whether a node is expanded; nothing happens if it is absent.
    pub fn toggle_expanded(&mut self, id: &TreeNodeId)
        requires
            old(self).wf(),
        ensures
            final(self)@ == spec_toggle(old(self)@, id@),
            final(self).wf(),
    {
        let updated = match self.get(id) {
            Some(node) => {
                let mut n = node.clone_node();
                n.expanded = !n.expanded;
                Some(n)
            },
            None => None,
        };
        match updated {
            Some(n) => self.insert(id.clone_id(), n),
            None => {},
        }
    }
}

} // verus!
