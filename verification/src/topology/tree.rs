//! The tree of clusters: every known server at the top, and below a server,
//! once it has been expanded, its brokers and its topics with their
//! partitions. The tree also remembers which entry is selected.

use crate::kafka::KafkaServer;
use crate::kafka::KafkaServerView;
use crate::text::str_eq;
use crate::topology::model::topic_from_md;
use crate::topology::model::BrokerMetadataView;
use crate::topology::model::BrokerView;
use crate::topology::model::ClusterMetadata;
use crate::topology::model::ClusterMetadataView;
use crate::topology::model::KafkaTreeBroker;
use crate::topology::model::KafkaTreePartition;
use crate::topology::model::KafkaTreeTopic;
use crate::topology::model::PartitionView;
use crate::topology::model::TopicMetadataView;
use crate::topology::model::TopicView;
use crate::topology::order::is_sorted_by_display;
use crate::topology::order::sort_by_display;
use crate::topology::order::sorted_by_display;
use vstd::prelude::*;
use vstd::std_specs::cmp::PartialEqSpecImpl;
use vstd::string::StringExecFns;

verus! {

/// What a [`TreeNode`] holds, as plain values.
pub enum TreeNodeView {
    Folder(Seq<char>),
    Server(KafkaServerView, bool),
    Broker(BrokerView),
    Topic(TopicView),
    Partition(PartitionView),
}

impl TreeNodeView {
    /// The text under which an entry is listed.
    pub open spec fn display(self) -> Seq<char> {
        match self {
            TreeNodeView::Folder(label) => label,
            TreeNodeView::Server(server, _) => server.name,
            TreeNodeView::Broker(broker) => broker.display(),
            TreeNodeView::Topic(topic) => topic.display(),
            TreeNodeView::Partition(partition) => partition.display(),
        }
    }

    /// Whether two entries count as the same entry. Servers are told apart
    /// by name and by whether they are connected, topics by server and name;
    /// folders, brokers and partitions by all that they hold.
    pub open spec fn same_as(self, other: TreeNodeView) -> bool {
        match (self, other) {
            (TreeNodeView::Folder(a), TreeNodeView::Folder(b)) => a == b,
            (TreeNodeView::Server(a, c), TreeNodeView::Server(b, d)) => a.name == b.name && c == d,
            (TreeNodeView::Broker(a), TreeNodeView::Broker(b)) => a == b,
            (TreeNodeView::Topic(a), TreeNodeView::Topic(b)) => a.server_name == b.server_name
                && a.name == b.name,
            (TreeNodeView::Partition(a), TreeNodeView::Partition(b)) => a == b,
            _ => false,
        }
    }

    /// Whether an entry is the server `server_name` or lies below it.
    pub open spec fn belongs_to(self, server_name: Seq<char>) -> bool {
        match self {
            TreeNodeView::Folder(_) => false,
            TreeNodeView::Server(server, _) => server.name == server_name,
            TreeNodeView::Broker(broker) => broker.server_name == server_name,
            TreeNodeView::Topic(topic) => topic.server_name == server_name,
            TreeNodeView::Partition(partition) => partition.server_name == server_name,
        }
    }

    /// Whether an entry is a server that has not been connected yet.
    pub open spec fn is_pending_server(self) -> bool {
        self matches TreeNodeView::Server(_, connected) && !connected
    }
}

/// One entry of the tree.
#[derive(Debug)]
pub enum TreeNode {
    /// A heading that groups other entries; it cannot be selected.
    Folder(String),
    /// A server, and whether its metadata has been fetched.
    Server(KafkaServer, bool),
    Broker(KafkaTreeBroker),
    Topic(KafkaTreeTopic),
    Partition(KafkaTreePartition),
}

impl View for TreeNode {
    type V = TreeNodeView;

    open spec fn view(&self) -> TreeNodeView {
        match self {
            TreeNode::Folder(label) => TreeNodeView::Folder(label@),
            TreeNode::Server(server, connected) => TreeNodeView::Server(server@, *connected),
            TreeNode::Broker(broker) => TreeNodeView::Broker(broker@),
            TreeNode::Topic(topic) => TreeNodeView::Topic(topic@),
            TreeNode::Partition(partition) => TreeNodeView::Partition(partition@),
        }
    }
}

impl Clone for TreeNode {
    fn clone(&self) -> (r: Self)
        ensures
            r@ == self@,
    {
        match self {
            TreeNode::Folder(label) => TreeNode::Folder(label.clone()),
            TreeNode::Server(server, connected) => TreeNode::Server(server.clone(), *connected),
            TreeNode::Broker(broker) => TreeNode::Broker(broker.clone()),
            TreeNode::Topic(topic) => TreeNode::Topic(topic.clone()),
            TreeNode::Partition(partition) => TreeNode::Partition(partition.clone()),
        }
    }
}

impl PartialEq for TreeNode {
    fn eq(&self, other: &Self) -> (r: bool) {
        match (self, other) {
            (TreeNode::Folder(a), TreeNode::Folder(b)) => *a == *b,
            (TreeNode::Server(a, c), TreeNode::Server(b, d)) => *a == *b && *c == *d,
            (TreeNode::Broker(a), TreeNode::Broker(b)) => *a == *b,
            (TreeNode::Topic(a), TreeNode::Topic(b)) => *a == *b,
            (TreeNode::Partition(a), TreeNode::Partition(b)) => *a == *b,
            _ => false,
        }
    }
}

impl Eq for TreeNode {

}

impl PartialEqSpecImpl for TreeNode {
    open spec fn obeys_eq_spec() -> bool {
        true
    }

    open spec fn eq_spec(&self, other: &Self) -> bool {
        self@.same_as(other@)
    }
}

impl TreeNode {
    /// The text under which the entry is listed.
    pub fn to_string(&self) -> (r: String)
        ensures
            r@ == self@.display(),
    {
        match self {
            TreeNode::Folder(label) => label.clone(),
            TreeNode::Server(server, _) => server.to_string(),
            TreeNode::Broker(broker) => broker.to_string(),
            TreeNode::Topic(topic) => topic.to_string(),
            TreeNode::Partition(partition) => partition.to_string(),
        }
    }

    /// Whether the entry is the server `server_name` or lies below it.
    pub fn belongs_to(&self, server_name: &str) -> (r: bool)
        ensures
            r == self@.belongs_to(server_name@),
    {
        match self {
            TreeNode::Folder(_) => false,
            TreeNode::Server(server, _) => str_eq(server.name.as_str(), server_name),
            TreeNode::Broker(broker) => str_eq(broker.server_name().as_str(), server_name),
            TreeNode::Topic(topic) => str_eq(topic.server_name.as_str(), server_name),
            TreeNode::Partition(partition) => str_eq(
                partition.server_name.as_str(),
                server_name,
            ),
        }
    }

    /// The configuration to connect with, where the entry is a server that
    /// has not been connected yet; nothing for every other entry.
    pub fn pending_server(&self) -> (r: Option<&KafkaServer>)
        ensures
            r is Some == self@.is_pending_server(),
            r matches Some(server) ==> self@ == TreeNodeView::Server(server@, false),
    {
        match self {
            TreeNode::Server(server, connected) => if *connected {
                None
            } else {
                Some(server)
            },
            _ => None,
        }
    }
}

/// What a [`SubTree`] holds, as plain values: an entry and the trees below
/// it, in the order in which they are listed.
pub struct SubTreeView {
    pub node: TreeNodeView,
    pub children: Seq<SubTreeView>,
}

/// An entry of the tree with everything below it.
#[derive(Debug)]
pub struct SubTree {
    node: TreeNode,
    children: Vec<SubTree>,
}

/// The plain value of an entry with everything below it.
pub closed spec fn subtree_view(tree: SubTree) -> SubTreeView
    decreases tree,
{
    SubTreeView {
        node: tree.node@,
        children: Seq::new(
            tree.children@.len(),
            |i: int|
                if 0 <= i < tree.children@.len() {
                    subtree_view(tree.children@[i])
                } else {
                    arbitrary()
                },
        ),
    }
}

impl View for SubTree {
    type V = SubTreeView;

    open spec fn view(&self) -> SubTreeView {
        subtree_view(*self)
    }
}

/// The plain values of a list of trees.
pub open spec fn subtree_views(trees: Seq<SubTree>) -> Seq<SubTreeView> {
    trees.map_values(|t: SubTree| t@)
}

/// An entry with nothing below it.
pub open spec fn leaf(node: TreeNodeView) -> SubTreeView {
    SubTreeView { node, children: Seq::empty() }
}

impl Clone for SubTree {
    fn clone(&self) -> (r: Self)
        ensures
            r@ == self@,
        decreases self,
    {
        let mut children: Vec<SubTree> = Vec::new();
        let mut i: usize = 0;
        while i < self.children.len()
            invariant
                i <= self.children.len(),
                children@.len() == i,
                forall|j: int| 0 <= j < i ==> children@[j]@ == self.children@[j]@,
            decreases self.children.len() - i,
        {
            let child = self.children[i].clone();
            children.push(child);
            i += 1;
        }
        let r = SubTree { node: self.node.clone(), children };
        assert(r@.children =~= self@.children);
        r
    }
}

impl SubTree {
    /// An entry with nothing below it.
    #[inline]
    pub fn new(node: TreeNode) -> (r: Self)
        ensures
            r@ == leaf(node@),
    {
        let r = Self { children: vec![], node };
        assert(r@.children =~= Seq::empty());
        r
    }

    /// An entry with the given trees below it.
    #[inline]
    pub fn with_children(node: TreeNode, children: Vec<SubTree>) -> (r: Self)
        ensures
            r@ == (SubTreeView { node: node@, children: subtree_views(children@) }),
    {
        let r = Self { children, node };
        assert(r@.children =~= subtree_views(children@));
        r
    }

    /// The entry at the top of this tree.
    pub fn node(&self) -> (r: &TreeNode)
        ensures
            r@ == self@.node,
    {
        &self.node
    }

    /// The trees below the entry, in the order in which they are listed.
    pub fn children(&self) -> (r: &Vec<SubTree>)
        ensures
            subtree_views(r@) == self@.children,
    {
        &self.children
    }
}

/// The entry of one broker below the `Brokers` folder of a server.
pub open spec fn broker_entry(server_name: Seq<char>, broker: BrokerMetadataView) -> SubTreeView {
    leaf(
        TreeNodeView::Broker(
            BrokerView { server_name, id: broker.id, host: broker.host, port: broker.port },
        ),
    )
}

/// The entry of one partition below the `Partition` folder of a topic.
pub open spec fn partition_entry(partition: PartitionView) -> SubTreeView {
    leaf(TreeNodeView::Partition(partition))
}

/// The entry of one topic below the `Topics` folder of a server: the topic,
/// and below it one folder `Partition` with the topic's partitions in the
/// metadata's order.
pub open spec fn topic_entry(server_name: Seq<char>, topic: TopicMetadataView) -> SubTreeView {
    let entry = topic_from_md(server_name, topic);
    SubTreeView {
        node: TreeNodeView::Topic(entry),
        children: seq![
            SubTreeView {
                node: TreeNodeView::Folder("Partition"@),
                children: entry.partitions.map_values(|p: PartitionView| partition_entry(p)),
            },
        ],
    }
}

/// What stands below a server once its metadata is known: the folder
/// `Brokers` and the folder `Topics`, the entries of each in ascending order
/// of display text.
pub open spec fn expanded_children(
    server_name: Seq<char>,
    md: ClusterMetadataView,
) -> Seq<SubTreeView> {
    seq![
        SubTreeView {
            node: TreeNodeView::Folder("Brokers"@),
            children: sorted_by_display(
                md.brokers.map_values(|b: BrokerMetadataView| broker_entry(server_name, b)),
            ),
        },
        SubTreeView {
            node: TreeNodeView::Folder("Topics"@),
            children: sorted_by_display(
                md.topics.map_values(|t: TopicMetadataView| topic_entry(server_name, t)),
            ),
        },
    ]
}

/// The tree of a connected server.
pub open spec fn expanded_server(server: KafkaServerView, md: ClusterMetadataView) -> SubTreeView {
    SubTreeView {
        node: TreeNodeView::Server(server, true),
        children: expanded_children(server.name, md),
    }
}

/// The tree of a server that is not connected: the server alone.
pub open spec fn collapsed_server(server: KafkaServerView) -> SubTreeView {
    leaf(TreeNodeView::Server(server, false))
}

/// Whether an entry is a server with the given name.
pub open spec fn is_server_named(node: TreeNodeView, name: Seq<char>) -> bool {
    node matches TreeNodeView::Server(server, _) && server.name == name
}

/// One top-level tree after a reconnect of the server `name`: that server
/// stands alone and unconnected again, every other tree is as it was.
pub open spec fn refreshed_entry(entry: SubTreeView, name: Seq<char>) -> SubTreeView {
    match entry.node {
        TreeNodeView::Server(server, _) => if server.name == name {
            collapsed_server(server)
        } else {
            entry
        },
        _ => entry,
    }
}

/// One top-level tree after the metadata `md` has arrived for the entry
/// `node`: the tree of that entry becomes the tree of a connected server,
/// every other tree is as it was.
pub open spec fn expanded_entry(
    entry: SubTreeView,
    node: TreeNodeView,
    md: ClusterMetadataView,
) -> SubTreeView {
    match entry.node {
        TreeNodeView::Server(server, connected) => if !connected && entry.node.same_as(node) {
            expanded_server(server, md)
        } else {
            entry
        },
        _ => entry,
    }
}

/// Whether a top-level tree is what the tree of a server can be: a server
/// alone while it is not connected, and once it is, a server above the
/// folders `Brokers` and `Topics`, each in ascending order of display text.
pub open spec fn is_server_tree(entry: SubTreeView) -> bool {
    match entry.node {
        TreeNodeView::Server(_, connected) => if connected {
            &&& entry.children.len() == 2
            &&& entry.children[0].node == TreeNodeView::Folder("Brokers"@)
            &&& entry.children[1].node == TreeNodeView::Folder("Topics"@)
            &&& is_sorted_by_display(entry.children[0].children)
            &&& is_sorted_by_display(entry.children[1].children)
        } else {
            entry.children.len() == 0
        },
        _ => false,
    }
}

/// What a [`Tree`] holds, as plain values.
pub struct TreeView {
    /// A copy of the entry that was selected last, if any.
    pub selected: Option<TreeNodeView>,
    /// The folder at the top, with one tree for each server below it.
    pub root: SubTreeView,
}

impl TreeView {
    /// Whether one of the servers of the tree has the given name.
    pub open spec fn has_server(self, name: Seq<char>) -> bool {
        exists|i: int|
            0 <= i < self.root.children.len() && is_server_named(
                (#[trigger] self.root.children[i]).node,
                name,
            )
    }

    /// Whether the selection is on the server `name` or below it.
    pub open spec fn selection_belongs_to(self, name: Seq<char>) -> bool {
        self.selected matches Some(node) && node.belongs_to(name)
    }

    /// Whether `node` counts as the selected entry.
    pub open spec fn is_selected(self, node: TreeNodeView) -> bool {
        self.selected matches Some(chosen) && chosen.same_as(node)
    }

    /// The tree after `node` was clicked: a copy of it is the selection,
    /// unless it is a folder, which leaves the selection as it was.
    pub open spec fn select(self, node: TreeNodeView) -> TreeView {
        if node is Folder {
            self
        } else {
            TreeView { selected: Some(node), root: self.root }
        }
    }

    /// The tree after the metadata `md` has arrived for the entry `node`.
    /// Only a server that is not connected yet takes it.
    pub open spec fn expand(self, node: TreeNodeView, md: ClusterMetadataView) -> TreeView {
        TreeView {
            selected: self.selected,
            root: SubTreeView {
                node: self.root.node,
                children: self.root.children.map_values(
                    |entry: SubTreeView| expanded_entry(entry, node, md),
                ),
            },
        }
    }

    /// The tree after a reconnect of the server `name`: the server loses what
    /// stood below it and is unconnected again, and a selection on it or
    /// below it is gone. A name that no server has changes nothing.
    pub open spec fn refresh(self, name: Seq<char>) -> TreeView {
        TreeView {
            selected: if self.has_server(name) && self.selection_belongs_to(name) {
                None
            } else {
                self.selected
            },
            root: SubTreeView {
                node: self.root.node,
                children: self.root.children.map_values(
                    |entry: SubTreeView| refreshed_entry(entry, name),
                ),
            },
        }
    }

    /// What holds of every tree that was made from a list of servers and
    /// changed by clicks, arriving metadata and reconnects only.
    pub open spec fn well_formed(self) -> bool {
        &&& self.root.node == TreeNodeView::Folder("Clusters"@)
        &&& forall|i: int|
            0 <= i < self.root.children.len() ==> is_server_tree(#[trigger] self.root.children[i])
        &&& !(self.selected matches Some(node) && node is Folder)
    }
}

/// Tree widget with kafka server information
#[derive(Debug)]
pub struct Tree {
    selected_node: Option<TreeNode>,
    child: SubTree,
}

impl View for Tree {
    type V = TreeView;

    closed spec fn view(&self) -> TreeView {
        TreeView {
            selected: match self.selected_node {
                Some(node) => Some(node@),
                None => None,
            },
            root: self.child@,
        }
    }
}

impl Clone for Tree {
    fn clone(&self) -> (r: Self)
        ensures
            r@ == self@,
    {
        Tree {
            selected_node: match &self.selected_node {
                Some(node) => Some(node.clone()),
                None => None,
            },
            child: self.child.clone(),
        }
    }
}

proof fn lemma_children_views(tree: SubTree)
    ensures
        tree@.children == subtree_views(tree.children@),
{
}

impl SubTree {
    /// The tree of a server whose metadata has been fetched: the server,
    /// marked connected, above the folders `Brokers` and `Topics`.
    pub fn expanded(server: &KafkaServer, md: &ClusterMetadata) -> (r: Self)
        ensures
            r@ == expanded_server(server@, md@),
    {
        let ghost name = server.name@;
        let mut brokers: Vec<SubTree> = Vec::new();
        let mut i: usize = 0;
        while i < md.brokers.len()
            invariant
                i <= md.brokers.len(),
                name == server.name@,
                brokers@.len() == i,
                forall|j: int|
                    0 <= j < i ==> (#[trigger] brokers@[j])@ == broker_entry(
                        name,
                        md.brokers@[j]@,
                    ),
            decreases md.brokers.len() - i,
        {
            let broker = KafkaTreeBroker::from_md(server.name.clone(), &md.brokers[i]);
            brokers.push(SubTree::new(TreeNode::Broker(broker)));
            i += 1;
        }
        assert(subtree_views(brokers@) =~= md@.brokers.map_values(
            |b: BrokerMetadataView| broker_entry(name, b),
        ));
        let brokers = sort_by_display(brokers);

        let mut topics: Vec<SubTree> = Vec::new();
        let mut k: usize = 0;
        while k < md.topics.len()
            invariant
                k <= md.topics.len(),
                name == server.name@,
                topics@.len() == k,
                forall|j: int|
                    0 <= j < k ==> (#[trigger] topics@[j])@ == topic_entry(name, md.topics@[j]@),
            decreases md.topics.len() - k,
        {
            let topic = KafkaTreeTopic::from_md(server.name.as_str(), &md.topics[k]);
            let mut partitions: Vec<SubTree> = Vec::new();
            let mut n: usize = 0;
            while n < topic.partitions.len()
                invariant
                    n <= topic.partitions.len(),
                    partitions@.len() == n,
                    forall|j: int|
                        0 <= j < n ==> (#[trigger] partitions@[j])@ == partition_entry(
                            topic.partitions@[j]@,
                        ),
                decreases topic.partitions.len() - n,
            {
                partitions.push(SubTree::new(TreeNode::Partition(topic.partitions[n].clone())));
                n += 1;
            }
            assert(subtree_views(partitions@) =~= topic@.partitions.map_values(
                |p: PartitionView| partition_entry(p),
            ));
            let folder = SubTree::with_children(
                TreeNode::Folder(String::from_str("Partition")),
                partitions,
            );
            let mut below: Vec<SubTree> = Vec::new();
            below.push(folder);
            assert(subtree_views(below@) =~= seq![folder@]);
            let entry = SubTree::with_children(TreeNode::Topic(topic), below);
            topics.push(entry);
            k += 1;
        }
        assert(subtree_views(topics@) =~= md@.topics.map_values(
            |t: TopicMetadataView| topic_entry(name, t),
        ));
        let topics = sort_by_display(topics);

        let brokers_folder = SubTree::with_children(
            TreeNode::Folder(String::from_str("Brokers")),
            brokers,
        );
        let topics_folder = SubTree::with_children(
            TreeNode::Folder(String::from_str("Topics")),
            topics,
        );
        let mut children: Vec<SubTree> = Vec::new();
        children.push(brokers_folder);
        children.push(topics_folder);
        assert(subtree_views(children@) =~= expanded_children(name, md@));
        SubTree::with_children(TreeNode::Server(server.clone(), true), children)
    }
}

impl Tree {
    /// The tree of the given servers: one entry for each, in the given order,
    /// none of them connected, below the folder `Clusters`; nothing is
    /// selected.
    pub fn from_servers(servers: &Vec<KafkaServer>) -> (r: Self)
        ensures
            r@.selected is None,
            r@.root.node == TreeNodeView::Folder("Clusters"@),
            r@.root.children == servers@.map_values(|s: KafkaServer| collapsed_server(s@)),
            r@.well_formed(),
    {
        let mut subtrees: Vec<SubTree> = Vec::new();
        let mut i: usize = 0;
        while i < servers.len()
            invariant
                i <= servers.len(),
                subtrees@.len() == i,
                forall|j: int|
                    0 <= j < i ==> (#[trigger] subtrees@[j])@ == collapsed_server(servers@[j]@),
            decreases servers.len() - i,
        {
            subtrees.push(SubTree::new(TreeNode::Server(servers[i].clone(), false)));
            i += 1;
        }
        let child = SubTree::with_children(
            TreeNode::Folder(String::from_str("Clusters")),
            subtrees,
        );
        Self { selected_node: None, child }
    }

    /// The entry that was selected last, if any.
    pub fn selected(&self) -> (r: Option<&TreeNode>)
        ensures
            match r {
                Some(node) => self@.selected == Some(node@),
                None => self@.selected is None,
            },
    {
        self.selected_node.as_ref()
    }

    /// A copy of the selected server's settings, where a server is selected.
    pub fn selected_server(&self) -> (r: Option<KafkaServer>)
        ensures
            match self@.selected {
                Some(TreeNodeView::Server(server, _)) => r matches Some(copy) && copy@ == server,
                _ => r is None,
            },
    {
        match &self.selected_node {
            Some(TreeNode::Server(server, _)) => Some(server.clone()),
            _ => None,
        }
    }

    /// A copy of the selected topic, where a topic is selected.
    pub fn selected_topic(&self) -> (r: Option<KafkaTreeTopic>)
        ensures
            match self@.selected {
                Some(TreeNodeView::Topic(topic)) => r matches Some(copy) && copy@ == topic,
                _ => r is None,
            },
    {
        match &self.selected_node {
            Some(TreeNode::Topic(topic)) => Some(topic.clone()),
            _ => None,
        }
    }

    /// A copy of the selected partition, where a partition is selected.
    pub fn selected_partition(&self) -> (r: Option<KafkaTreePartition>)
        ensures
            match self@.selected {
                Some(TreeNodeView::Partition(partition)) => r matches Some(copy) && copy@
                    == partition,
                _ => r is None,
            },
    {
        match &self.selected_node {
            Some(TreeNode::Partition(partition)) => Some(partition.clone()),
            _ => None,
        }
    }

    /// The folder at the top, with the trees of the servers below it.
    pub fn root(&self) -> (r: &SubTree)
        ensures
            r@ == self@.root,
    {
        &self.child
    }

    /// Whether `node` is to be shown as the selected entry.
    pub fn is_selected(&self, node: &TreeNode) -> (r: bool)
        ensures
            r == self@.is_selected(node@),
    {
        match &self.selected_node {
            Some(chosen) => *chosen == *node,
            None => false,
        }
    }

    /// Records a click on `node`: a copy of it becomes the selection. A click
    /// on a folder changes nothing.
    pub fn select(&mut self, node: &TreeNode)
        ensures
            final(self)@ == old(self)@.select(node@),
            old(self)@.well_formed() ==> final(self)@.well_formed(),
    {
        match node {
            TreeNode::Folder(_) => {},
            _ => {
                self.selected_node = Some(node.clone());
            },
        }
    }

    /// Records a click on `node` as [`Tree::select`] does, and says which
    /// server has to be connected now: the clicked one, where it is a server
    /// that is not connected yet. The answer to the metadata request that
    /// the caller then makes goes to [`Tree::expand`].
    pub fn click(&mut self, node: &TreeNode) -> (to_connect: Option<KafkaServer>)
        ensures
            final(self)@ == old(self)@.select(node@),
            old(self)@.well_formed() ==> final(self)@.well_formed(),
            to_connect is Some == node@.is_pending_server(),
            to_connect matches Some(server) ==> node@ == TreeNodeView::Server(server@, false),
    {
        self.select(node);
        match node.pending_server() {
            Some(server) => Some(server.clone()),
            None => None,
        }
    }

    /// Takes the answer to the metadata request that was made for the entry
    /// `node`. An error is handed back and leaves the tree as it was. With
    /// metadata, every server of the tree that counts as the same entry as
    /// `node` and is not connected yet becomes connected, with its brokers
    /// and topics below it; where `node` is no such server, nothing changes.
    pub fn expand<E>(&mut self, node: &TreeNode, fetched: Result<ClusterMetadata, E>) -> (r: Result<
        (),
        E,
    >)
        ensures
            match fetched {
                Ok(md) => r is Ok && final(self)@ == old(self)@.expand(node@, md@),
                Err(e) => r == Err::<(), E>(e) && final(self)@ == old(self)@,
            },
            old(self)@.well_formed() ==> final(self)@.well_formed(),
    {
        let md = match fetched {
            Ok(md) => md,
            Err(e) => {
                return Err(e);
            },
        };
        let ghost before = self.child.children@;
        proof {
            lemma_children_views(self.child);
        }
        let mut i: usize = 0;
        while i < self.child.children.len()
            invariant
                i <= self.child.children@.len(),
                self.child.children@.len() == before.len(),
                self.child.node == old(self).child.node,
                self.selected_node == old(self).selected_node,
                forall|j: int|
                    0 <= j < i ==> (#[trigger] self.child.children@[j])@ == expanded_entry(
                        before[j]@,
                        node@,
                        md@,
                    ),
                forall|j: int|
                    i <= j < before.len() ==> (#[trigger] self.child.children@[j])@ == before[j]@,
            decreases self.child.children@.len() - i,
        {
            let replacement = match self.child.children[i].node() {
                TreeNode::Server(server, connected) => if !*connected && *self.child.children[i].node()
                    == *node {
                    Some(SubTree::expanded(server, &md))
                } else {
                    None
                },
                _ => None,
            };
            match replacement {
                Some(tree) => {
                    self.child.children.set(i, tree);
                },
                None => {},
            }
            i += 1;
        }
        proof {
            lemma_children_views(self.child);
            assert(self@.root.children =~= old(self)@.expand(node@, md@).root.children);
            if old(self)@.well_formed() {
                law_expand_keeps_tree_well_formed(old(self)@, node@, md@);
            }
        }
        Ok(())
    }

    /// Reconnects the server `name`: every server of that name loses what
    /// stood below it and is unconnected again, so that the next click on it
    /// fetches its metadata anew; a selection on that server or below it is
    /// dropped. Other servers stay as they are.
    pub fn refresh_server(&mut self, name: String)
        ensures
            final(self)@ == old(self)@.refresh(name@),
            old(self)@.well_formed() ==> final(self)@.well_formed(),
    {
        let ghost before = self.child.children@;
        proof {
            lemma_children_views(self.child);
        }
        let mut found = false;
        let mut i: usize = 0;
        while i < self.child.children.len()
            invariant
                i <= self.child.children@.len(),
                self.child.children@.len() == before.len(),
                self.child.node == old(self).child.node,
                self.selected_node == old(self).selected_node,
                found == (exists|j: int|
                    0 <= j < i && is_server_named((#[trigger] before[j])@.node, name@)),
                forall|j: int|
                    0 <= j < i ==> (#[trigger] self.child.children@[j])@ == refreshed_entry(
                        before[j]@,
                        name@,
                    ),
                forall|j: int|
                    i <= j < before.len() ==> (#[trigger] self.child.children@[j])@ == before[j]@,
            decreases self.child.children@.len() - i,
        {
            let replacement = match self.child.children[i].node() {
                TreeNode::Server(server, _) => if server.name == name {
                    Some(SubTree::new(TreeNode::Server(server.clone(), false)))
                } else {
                    None
                },
                _ => None,
            };
            match replacement {
                Some(tree) => {
                    found = true;
                    self.child.children.set(i, tree);
                },
                None => {},
            }
            i += 1;
        }
        proof {
            lemma_children_views(self.child);
            assert(self@.root.children =~= old(self)@.refresh(name@).root.children);
            assert(found == old(self)@.has_server(name@)) by {
                if found {
                    let j = choose|j: int|
                        0 <= j < before.len() && is_server_named(
                            (#[trigger] before[j])@.node,
                            name@,
                        );
                    assert(is_server_named(old(self)@.root.children[j].node, name@));
                }
                if old(self)@.has_server(name@) {
                    let j = choose|j: int|
                        0 <= j < old(self)@.root.children.len() && is_server_named(
                            (#[trigger] old(self)@.root.children[j]).node,
                            name@,
                        );
                    assert(is_server_named(before[j]@.node, name@));
                }
            }
        }
        if found {
            let belongs = match &self.selected_node {
                Some(node) => node.belongs_to(name.as_str()),
                None => false,
            };
            if belongs {
                self.selected_node = None;
            }
        }
        proof {
            if old(self)@.well_formed() {
                law_refresh_keeps_tree_well_formed(old(self)@, name@);
            }
        }
    }
}

/// Arriving metadata keeps a tree well formed.
pub proof fn law_expand_keeps_tree_well_formed(tree: TreeView, node: TreeNodeView, md: ClusterMetadataView)
    requires
        tree.well_formed(),
    ensures
        tree.expand(node, md).well_formed(),
{
    let after = tree.expand(node, md);
    assert forall|i: int| 0 <= i < after.root.children.len() implies is_server_tree(
        #[trigger] after.root.children[i],
    ) by {
        let entry = tree.root.children[i];
        match entry.node {
            TreeNodeView::Server(server, connected) => {
                if !connected && entry.node.same_as(node) {
                    crate::topology::order::lemma_sorted_by_display(
                        md.brokers.map_values(
                            |b: BrokerMetadataView| broker_entry(server.name, b),
                        ),
                    );
                    crate::topology::order::lemma_sorted_by_display(
                        md.topics.map_values(|t: TopicMetadataView| topic_entry(server.name, t)),
                    );
                }
            },
            _ => {},
        }
    }
}

/// A reconnect keeps a tree well formed.
pub proof fn law_refresh_keeps_tree_well_formed(tree: TreeView, name: Seq<char>)
    requires
        tree.well_formed(),
    ensures
        tree.refresh(name).well_formed(),
{
    let after = tree.refresh(name);
    assert forall|i: int| 0 <= i < after.root.children.len() implies is_server_tree(
        #[trigger] after.root.children[i],
    ) by {
        assert(after.root.children[i] == refreshed_entry(tree.root.children[i], name));
    }
}

/// Two servers whose configurations bear one name count as the same entry,
/// whatever else the configurations hold: a selection on one is a selection
/// on the other.
pub proof fn law_servers_are_told_apart_by_name(
    tree: TreeView,
    a: KafkaServerView,
    b: KafkaServerView,
    connected: bool,
)
    requires
        a.name == b.name,
    ensures
        TreeNodeView::Server(a, connected).same_as(TreeNodeView::Server(b, connected)),
        tree.is_selected(TreeNodeView::Server(a, connected)) == tree.is_selected(
            TreeNodeView::Server(b, connected),
        ),
        tree.select(TreeNodeView::Server(a, connected)).is_selected(
            TreeNodeView::Server(b, connected),
        ),
{
}

/// Once the metadata has arrived for a server that was not connected, the
/// server is connected and has exactly two trees below it: the folder
/// `Brokers` and the folder `Topics`.
pub proof fn law_expanded_server_has_two_folders(
    tree: TreeView,
    i: int,
    node: TreeNodeView,
    md: ClusterMetadataView,
)
    requires
        0 <= i < tree.root.children.len(),
        tree.root.children[i].node.is_pending_server(),
        tree.root.children[i].node.same_as(node),
    ensures
        tree.expand(node, md).root.children.len() == tree.root.children.len(),
        tree.expand(node, md).root.children[i].node == TreeNodeView::Server(
            tree.root.children[i].node->Server_0,
            true,
        ),
        tree.expand(node, md).root.children[i].children.len() == 2,
        tree.expand(node, md).root.children[i].children[0].node == TreeNodeView::Folder(
            "Brokers"@,
        ),
        tree.expand(node, md).root.children[i].children[1].node == TreeNodeView::Folder(
            "Topics"@,
        ),
{
}

/// Whenever metadata has arrived for a server of a well-formed tree, that
/// server is connected and has exactly two trees below it, the folder
/// `Brokers` and the folder `Topics`: it has them from this metadata where it
/// was not connected, and had them before where it was.
pub proof fn law_server_is_connected_after_expand(
    tree: TreeView,
    i: int,
    node: TreeNodeView,
    md: ClusterMetadataView,
)
    requires
        tree.well_formed(),
        0 <= i < tree.root.children.len(),
        node.is_pending_server(),
        is_server_named(tree.root.children[i].node, node->Server_0.name),
    ensures
        tree.expand(node, md).root.children[i].node matches TreeNodeView::Server(_, connected)
            && connected,
        tree.expand(node, md).root.children[i].children.len() == 2,
        tree.expand(node, md).root.children[i].children[0].node == TreeNodeView::Folder(
            "Brokers"@,
        ),
        tree.expand(node, md).root.children[i].children[1].node == TreeNodeView::Folder(
            "Topics"@,
        ),
        is_sorted_by_display(tree.expand(node, md).root.children[i].children[0].children),
        is_sorted_by_display(tree.expand(node, md).root.children[i].children[1].children),
{
    law_expand_keeps_tree_well_formed(tree, node, md);
    assert(is_server_tree(tree.expand(node, md).root.children[i]));
}

/// After a reconnect of a server, that server is not connected and has
/// nothing below it.
pub proof fn law_refreshed_server_is_bare(tree: TreeView, i: int, name: Seq<char>)
    requires
        0 <= i < tree.root.children.len(),
        is_server_named(tree.root.children[i].node, name),
    ensures
        tree.refresh(name).root.children.len() == tree.root.children.len(),
        tree.refresh(name).root.children[i].node == TreeNodeView::Server(
            tree.root.children[i].node->Server_0,
            false,
        ),
        tree.refresh(name).root.children[i].children.len() == 0,
{
}

/// A reconnect leaves every server of another name as it was.
pub proof fn law_refresh_spares_other_servers(tree: TreeView, i: int, name: Seq<char>)
    requires
        0 <= i < tree.root.children.len(),
        !is_server_named(tree.root.children[i].node, name),
    ensures
        tree.refresh(name).root.children[i] == tree.root.children[i],
{
}

/// The brokers and the topics below a connected server are in ascending
/// order of display text, and they are the brokers and topics of the
/// metadata, no more and no fewer.
pub proof fn law_expanded_children_are_sorted(server_name: Seq<char>, md: ClusterMetadataView)
    ensures
        is_sorted_by_display(expanded_children(server_name, md)[0].children),
        is_sorted_by_display(expanded_children(server_name, md)[1].children),
        expanded_children(server_name, md)[0].children.to_multiset() == md.brokers.map_values(
            |b: BrokerMetadataView| broker_entry(server_name, b),
        ).to_multiset(),
        expanded_children(server_name, md)[1].children.to_multiset() == md.topics.map_values(
            |t: TopicMetadataView| topic_entry(server_name, t),
        ).to_multiset(),
{
    crate::topology::order::lemma_sorted_by_display(
        md.brokers.map_values(|b: BrokerMetadataView| broker_entry(server_name, b)),
    );
    crate::topology::order::lemma_sorted_by_display(
        md.topics.map_values(|t: TopicMetadataView| topic_entry(server_name, t)),
    );
}

/// Expanding a server again after a reconnect, with the same metadata, gives
/// the same tree below it, in the same order, as the first time.
pub proof fn law_expanding_again_gives_the_same(
    tree: TreeView,
    i: int,
    node: TreeNodeView,
    md: ClusterMetadataView,
)
    requires
        0 <= i < tree.root.children.len(),
        tree.root.children[i].node.is_pending_server(),
        tree.root.children[i].node.same_as(node),
    ensures
        tree.expand(node, md).refresh(tree.root.children[i].node->Server_0.name).expand(
            node,
            md,
        ).root.children[i] == tree.expand(node, md).root.children[i],
{
}

/// A server is connected at most once as long as it is not reconnected:
/// metadata that arrives for a connected server changes nothing.
pub proof fn law_connected_server_stays(
    tree: TreeView,
    node: TreeNodeView,
    first: ClusterMetadataView,
    second: ClusterMetadataView,
)
    ensures
        tree.expand(node, first).expand(node, second) == tree.expand(node, first),
{
    let once = tree.expand(node, first);
    let twice = once.expand(node, second);
    assert(twice.root.children =~= once.root.children);
}

/// A reconnect of a server drops a selection on that server or below it.
pub proof fn law_refresh_drops_selection(tree: TreeView, name: Seq<char>)
    requires
        tree.has_server(name),
        tree.selection_belongs_to(name),
    ensures
        tree.refresh(name).selected is None,
{
}

} // verus!
