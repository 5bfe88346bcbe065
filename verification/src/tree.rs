//! Breadth-first discovery of the directory tree behind a share.
//!
//! The host issues one listing request per directory; this module owns every
//! decision: which directory to list next, which nodes each listing adds,
//! and the invariant that the growing node list is always a valid tree.

use vstd::prelude::*;
use vstd::string::StringExecFns;
use std::collections::VecDeque;

verus! {

/// One node of the discovered tree. `id` doubles as the remote path and the
/// tree key; the root is the sole node with no parent.
#[derive(Debug, Clone)]
pub struct FileNode {
    pub id: String,
    pub name: String,
    pub parent: Option<String>,
    pub is_dir: bool,
    pub size: u64,
}

/// The mathematical shadow of a [`FileNode`].
pub struct NodeV {
    pub id: Seq<char>,
    pub name: Seq<char>,
    pub parent: Option<Seq<char>>,
    pub is_dir: bool,
    pub size: u64,
}

impl View for FileNode {
    type V = NodeV;

    open spec fn view(&self) -> NodeV {
        NodeV {
            id: self.id@,
            name: self.name@,
            parent: match self.parent {
                Some(p) => Some(p@),
                None => None,
            },
            is_dir: self.is_dir,
            size: self.size,
        }
    }
}

/// One entry of a directory listing, as the backend reports it: a directory
/// carries its folder path and name, a file its file path, name and size.
#[derive(Debug, Clone)]
pub struct Dirent {
    pub is_dir: bool,
    pub folder_path: String,
    pub folder_name: String,
    pub file_path: String,
    pub file_name: String,
    pub size: u64,
}

/// The mathematical shadow of a [`Dirent`].
pub struct DirentV {
    pub is_dir: bool,
    pub folder_path: Seq<char>,
    pub folder_name: Seq<char>,
    pub file_path: Seq<char>,
    pub file_name: Seq<char>,
    pub size: u64,
}

impl View for Dirent {
    type V = DirentV;

    open spec fn view(&self) -> DirentV {
        DirentV {
            is_dir: self.is_dir,
            folder_path: self.folder_path@,
            folder_name: self.folder_name@,
            file_path: self.file_path@,
            file_name: self.file_name@,
            size: self.size,
        }
    }
}

/// The views of a sequence of dirents.
pub open spec fn dirent_views(ds: Seq<Dirent>) -> Seq<DirentV> {
    ds.map_values(|d: Dirent| d@)
}

/// The node that one dirent under `parent` becomes.
pub open spec fn node_of(d: DirentV, parent: Seq<char>) -> NodeV {
    if d.is_dir {
        NodeV { id: d.folder_path, name: d.folder_name, parent: Some(parent), is_dir: true, size: 0 }
    } else {
        NodeV {
            id: d.file_path,
            name: d.file_name,
            parent: Some(parent),
            is_dir: false,
            size: d.size,
        }
    }
}

/// The nodes that a whole listing under `parent` becomes, in listing order.
pub open spec fn listing_nodes(ds: Seq<DirentV>, parent: Seq<char>) -> Seq<NodeV> {
    ds.map_values(|d: DirentV| node_of(d, parent))
}

/// The paths of the directories in a listing, in listing order: what the
/// traversal still has to expand.
pub open spec fn dir_paths(ds: Seq<DirentV>) -> Seq<Seq<char>>
    decreases ds.len(),
{
    if ds.len() == 0 {
        Seq::empty()
    } else {
        let prefix = dir_paths(ds.drop_last());
        if ds.last().is_dir {
            prefix.push(ds.last().folder_path)
        } else {
            prefix
        }
    }
}

/// `nodes` holds a directory whose id is `id`.
pub open spec fn dir_present(nodes: Seq<NodeV>, id: Seq<char>) -> bool {
    exists|j: int| 0 <= j < nodes.len() && (#[trigger] nodes[j]).id == id && nodes[j].is_dir
}

/// The root node: id `/`, a directory, no parent.
pub open spec fn is_root(n: NodeV) -> bool {
    n.id == "/"@ && n.name == "/"@ && n.parent is None && n.is_dir && n.size == 0
}

/// The node list is a valid tree: the root stands first and is the only node
/// without a parent, every other node's parent is a directory present in the
/// list, and directories carry no size.
pub open spec fn valid_tree(nodes: Seq<NodeV>) -> bool {
    &&& nodes.len() >= 1
    &&& is_root(nodes[0])
    &&& forall|i: int|
        1 <= i < nodes.len() ==> ((#[trigger] nodes[i]).parent matches Some(p) && dir_present(
            nodes,
            p,
        ))
    &&& forall|i: int| 0 <= i < nodes.len() && (#[trigger] nodes[i]).is_dir ==> nodes[i].size == 0
}

/// A directory present in a node list stays present when the list grows.
proof fn lemma_dir_present_extend(a: Seq<NodeV>, b: Seq<NodeV>, id: Seq<char>)
    requires
        dir_present(a, id),
    ensures
        dir_present(a + b, id),
{
    let j = choose|j: int| 0 <= j < a.len() && (#[trigger] a[j]).id == id && a[j].is_dir;
    assert((a + b)[j] == a[j]);
}

/// Appending a node whose parent is a directory already present keeps the
/// list a valid tree.
proof fn lemma_valid_tree_push(a: Seq<NodeV>, n: NodeV)
    requires
        valid_tree(a),
        n.parent matches Some(p) && dir_present(a, p),
        n.is_dir ==> n.size == 0,
    ensures
        valid_tree(a.push(n)),
{
    let t = a.push(n);
    assert(a.push(n) =~= a + seq![n]);
    assert(t[0] == a[0]);
    assert forall|i: int| 1 <= i < t.len() implies ((#[trigger] t[i]).parent matches Some(p)
        && dir_present(t, p)) by {
        if i < a.len() {
            assert(t[i] == a[i]);
            let p = a[i].parent->0;
            lemma_dir_present_extend(a, seq![n], p);
        } else {
            assert(t[i] == n);
            let p = n.parent->0;
            lemma_dir_present_extend(a, seq![n], p);
        }
    }
    assert forall|i: int| 0 <= i < t.len() && (#[trigger] t[i]).is_dir implies t[i].size == 0 by {
        if i < a.len() {
            assert(t[i] == a[i]);
        }
    }
}

/// The state of one breadth-first traversal: the nodes discovered so far and
/// the FIFO queue of directories still to list.
pub struct TreeDiscovery {
    /// The nodes discovered so far, in discovery order.
    pub nodes: Vec<FileNode>,
    /// The directories still to list, front first.
    pub queue: VecDeque<String>,
}

impl TreeDiscovery {
    /// The views of the discovered nodes, in discovery order.
    pub open spec fn nodes_v(self) -> Seq<NodeV> {
        self.nodes@.map_values(|n: FileNode| n@)
    }

    /// The views of the queued directory paths, front first.
    pub open spec fn queue_v(self) -> Seq<Seq<char>> {
        self.queue@.map_values(|s: String| s@)
    }

    /// The traversal's invariant: the nodes are a valid tree and every queued
    /// path names a directory already discovered.
    pub open spec fn wf(self) -> bool {
        &&& valid_tree(self.nodes_v())
        &&& forall|i: int|
            0 <= i < self.queue_v().len() ==> dir_present(self.nodes_v(), #[trigger] self.queue_v()[i])
    }

    /// Starts a traversal at the root path `/`.
    pub fn new() -> (t: Self)
        ensures
            t.wf(),
            t.nodes_v() == seq![
                (NodeV { id: "/"@, name: "/"@, parent: None, is_dir: true, size: 0 }),
            ],
            t.queue_v() == seq!["/"@],
    {
        let mut nodes: Vec<FileNode> = Vec::new();
        nodes.push(
            FileNode {
                id: String::from_str("/"),
                name: String::from_str("/"),
                parent: None,
                is_dir: true,
                size: 0,
            },
        );
        let mut queue: VecDeque<String> = VecDeque::new();
        queue.push_back(String::from_str("/"));
        let t = TreeDiscovery { nodes, queue };
        proof {
            assert(t.nodes_v() =~= seq![
                NodeV { id: "/"@, name: "/"@, parent: None, is_dir: true, size: 0 },
            ]);
            assert(t.queue_v() =~= seq!["/"@]);
        }
        t
    }

    /// Takes the next directory to list off the front of the queue. `None`
    /// means the traversal is complete.
    pub fn next_dir(&mut self) -> (r: Option<String>)
        requires
            old(self).wf(),
        ensures
            final(self).wf(),
            final(self).nodes_v() == old(self).nodes_v(),
            match r {
                Some(p) => old(self).queue_v().len() > 0 && p@ == old(self).queue_v()[0]
                    && final(self).queue_v() == old(self).queue_v().drop_first() && dir_present(
                    final(self).nodes_v(),
                    p@,
                ),
                None => old(self).queue_v().len() == 0 && final(self).queue_v() == old(
                    self,
                ).queue_v(),
            },
    {
        let r = self.queue.pop_front();
        proof {
            match r {
                Some(ref p) => {
                    assert(self.queue_v() =~= old(self).queue_v().drop_first());
                    assert(p@ == old(self).queue_v()[0]);
                },
                None => {
                    assert(self.queue_v() =~= old(self).queue_v());
                },
            }
        }
        r
    }

    /// Folds one directory listing into the traversal: every entry becomes a
    /// node under `parent`, and every directory entry joins the queue for
    /// later expansion, both in listing order.
    pub fn apply_listing(&mut self, parent: &str, dirents: &Vec<Dirent>)
        requires
            old(self).wf(),
            dir_present(old(self).nodes_v(), parent@),
        ensures
            final(self).wf(),
            final(self).nodes_v() == old(self).nodes_v() + listing_nodes(
                dirent_views(dirents@),
                parent@,
            ),
            final(self).queue_v() == old(self).queue_v() + dir_paths(dirent_views(dirents@)),
    {
        let ghost nodes0 = self.nodes_v();
        let ghost queue0 = self.queue_v();
        let ghost ds = dirent_views(dirents@);
        let mut k: usize = 0;
        while k < dirents.len()
            invariant
                old(self).wf(),
                dir_present(nodes0, parent@),
                nodes0 == old(self).nodes_v(),
                queue0 == old(self).queue_v(),
                ds == dirent_views(dirents@),
                k <= dirents@.len(),
                self.wf(),
                self.nodes_v() == nodes0 + listing_nodes(ds.subrange(0, k as int), parent@),
                self.queue_v() == queue0 + dir_paths(ds.subrange(0, k as int)),
            decreases dirents@.len() - k,
        {
            let ghost pre_nodes = self.nodes_v();
            let ghost pre_queue = self.queue_v();
            let d = &dirents[k];
            let parent_s = String::from_str(parent);
            if d.is_dir {
                let node = FileNode {
                    id: d.folder_path.clone(),
                    name: d.folder_name.clone(),
                    parent: Some(parent_s),
                    is_dir: true,
                    size: 0,
                };
                self.nodes.push(node);
                self.queue.push_back(d.folder_path.clone());
            } else {
                let node = FileNode {
                    id: d.file_path.clone(),
                    name: d.file_name.clone(),
                    parent: Some(parent_s),
                    is_dir: false,
                    size: d.size,
                };
                self.nodes.push(node);
            }
            proof {
                let dk = ds[k as int];
                assert(self.nodes_v() =~= pre_nodes.push(node_of(dk, parent@)));
                lemma_dir_present_extend(nodes0, listing_nodes(ds.subrange(0, k as int), parent@), parent@);
                lemma_valid_tree_push(pre_nodes, node_of(dk, parent@));
                assert(ds.subrange(0, k + 1).drop_last() =~= ds.subrange(0, k as int));
                assert(self.nodes_v() =~= nodes0 + listing_nodes(ds.subrange(0, k + 1), parent@));
                if dk.is_dir {
                    assert(self.queue_v() =~= pre_queue.push(dk.folder_path));
                    assert(dir_paths(ds.subrange(0, k + 1)) =~= dir_paths(
                        ds.subrange(0, k as int),
                    ).push(dk.folder_path));
                } else {
                    assert(self.queue_v() =~= pre_queue);
                    assert(dir_paths(ds.subrange(0, k + 1)) =~= dir_paths(ds.subrange(0, k as int)));
                }
                assert(self.queue_v() =~= queue0 + dir_paths(ds.subrange(0, k + 1)));
                assert forall|i: int| 0 <= i < self.queue_v().len() implies dir_present(
                    self.nodes_v(),
                    #[trigger] self.queue_v()[i],
                ) by {
                    if i < pre_queue.len() {
                        assert(self.queue_v()[i] == pre_queue[i]);
                        lemma_dir_present_extend(
                            pre_nodes,
                            seq![node_of(dk, parent@)],
                            pre_queue[i],
                        );
                        assert(pre_nodes + seq![node_of(dk, parent@)] =~= self.nodes_v());
                    } else {
                        assert(dk.is_dir);
                        assert(self.queue_v()[i] == dk.folder_path);
                        assert(self.nodes_v()[self.nodes_v().len() - 1] == node_of(dk, parent@));
                    }
                }
            }
            k += 1;
        }
        proof {
            assert(ds.subrange(0, ds.len() as int) =~= ds);
        }
    }

    /// Hands the discovered nodes to the caller; the traversal is spent.
    pub fn into_nodes(self) -> (r: Vec<FileNode>)
        requires
            self.wf(),
        ensures
            r@.map_values(|n: FileNode| n@) == self.nodes_v(),
            valid_tree(r@.map_values(|n: FileNode| n@)),
    {
        self.nodes
    }
}

} // verus!
