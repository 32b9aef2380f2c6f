//! What a cluster's metadata holds, and the tree entries made from it.

use crate::text::i32_to_string;
use crate::text::int_decimal;
use vstd::prelude::*;
use vstd::std_specs::cmp::PartialEqSpecImpl;
use vstd::string::StringExecFns;

verus! {

/// One broker of a cluster, as the cluster's metadata lists it.
#[derive(Debug)]
pub struct BrokerMetadata {
    pub id: i32,
    pub host: String,
    pub port: i32,
}

/// What a [`BrokerMetadata`] holds, as plain values.
pub struct BrokerMetadataView {
    pub id: i32,
    pub host: Seq<char>,
    pub port: i32,
}

impl View for BrokerMetadata {
    type V = BrokerMetadataView;

    open spec fn view(&self) -> BrokerMetadataView {
        BrokerMetadataView { id: self.id, host: self.host@, port: self.port }
    }
}

/// One partition of a topic, as the cluster's metadata lists it.
#[derive(Debug, Clone, Copy, PartialEq, Eq, Structural)]
pub struct PartitionMetadata {
    pub id: i32,
    /// Id of the broker that leads the partition.
    pub leader: i32,
}

/// One topic of a cluster, as the cluster's metadata lists it.
#[derive(Debug)]
pub struct TopicMetadata {
    pub name: String,
    pub partitions: Vec<PartitionMetadata>,
}

/// What a [`TopicMetadata`] holds, as plain values.
pub struct TopicMetadataView {
    pub name: Seq<char>,
    pub partitions: Seq<PartitionMetadata>,
}

impl View for TopicMetadata {
    type V = TopicMetadataView;

    open spec fn view(&self) -> TopicMetadataView {
        TopicMetadataView { name: self.name@, partitions: self.partitions@ }
    }
}

/// The answer to one metadata request: the brokers and the topics of a
/// cluster, in the order in which the cluster gave them.
#[derive(Debug)]
pub struct ClusterMetadata {
    pub brokers: Vec<BrokerMetadata>,
    pub topics: Vec<TopicMetadata>,
}

/// What a [`ClusterMetadata`] holds, as plain values.
pub struct ClusterMetadataView {
    pub brokers: Seq<BrokerMetadataView>,
    pub topics: Seq<TopicMetadataView>,
}

impl View for ClusterMetadata {
    type V = ClusterMetadataView;

    open spec fn view(&self) -> ClusterMetadataView {
        ClusterMetadataView {
            brokers: self.brokers@.map_values(|b: BrokerMetadata| b@),
            topics: self.topics@.map_values(|t: TopicMetadata| t@),
        }
    }
}

/// What a [`KafkaTreeBroker`] holds, as plain values.
pub struct BrokerView {
    pub server_name: Seq<char>,
    pub id: i32,
    pub host: Seq<char>,
    pub port: i32,
}

impl BrokerView {
    /// A broker is shown as `host:port`.
    pub open spec fn display(self) -> Seq<char> {
        self.host + seq![':'] + int_decimal(self.port as int)
    }
}

/// A broker in the tree of a server.
#[derive(Debug)]
pub struct KafkaTreeBroker {
    server_name: String,
    id: i32,
    host: String,
    port: i32,
}

impl View for KafkaTreeBroker {
    type V = BrokerView;

    closed spec fn view(&self) -> BrokerView {
        BrokerView {
            server_name: self.server_name@,
            id: self.id,
            host: self.host@,
            port: self.port,
        }
    }
}

impl Clone for KafkaTreeBroker {
    fn clone(&self) -> (r: Self)
        ensures
            r@ == self@,
    {
        KafkaTreeBroker {
            server_name: self.server_name.clone(),
            id: self.id,
            host: self.host.clone(),
            port: self.port,
        }
    }
}

impl PartialEq for KafkaTreeBroker {
    fn eq(&self, other: &Self) -> (r: bool) {
        self.server_name == other.server_name && self.id == other.id && self.host == other.host
            && self.port == other.port
    }
}

impl Eq for KafkaTreeBroker {

}

impl PartialEqSpecImpl for KafkaTreeBroker {
    open spec fn obeys_eq_spec() -> bool {
        true
    }

    open spec fn eq_spec(&self, other: &Self) -> bool {
        self@ == other@
    }
}

impl KafkaTreeBroker {
    /// The tree entry of a broker of the server `server_name`.
    pub fn from_md(server_name: String, broker: &BrokerMetadata) -> (r: Self)
        ensures
            r@ == (BrokerView {
                server_name: server_name@,
                id: broker.id,
                host: broker.host@,
                port: broker.port,
            }),
    {
        Self { server_name, id: broker.id, host: broker.host.clone(), port: broker.port }
    }

    /// Name of the server that the broker belongs to.
    pub fn server_name(&self) -> (r: &String)
        ensures
            r@ == self@.server_name,
    {
        &self.server_name
    }

    /// Id of the broker within its cluster.
    pub fn id(&self) -> (r: i32)
        ensures
            r == self@.id,
    {
        self.id
    }

    /// Host of the broker.
    pub fn host(&self) -> (r: &String)
        ensures
            r@ == self@.host,
    {
        &self.host
    }

    /// Port of the broker.
    pub fn port(&self) -> (r: i32)
        ensures
            r == self@.port,
    {
        self.port
    }

    /// The text under which the broker is listed: `host:port`.
    pub fn to_string(&self) -> (r: String)
        ensures
            r@ == self@.display(),
    {
        proof {
            reveal_strlit(":");
        }
        let mut out = self.host.clone();
        out.append(":");
        let port = i32_to_string(self.port);
        out.append(port.as_str());
        out
    }
}

/// What a [`KafkaTreePartition`] holds, as plain values.
pub struct PartitionView {
    pub server_name: Seq<char>,
    pub topic_name: Seq<char>,
    pub id: i32,
    pub leader: i32,
}

impl PartitionView {
    /// A partition is shown as its id.
    pub open spec fn display(self) -> Seq<char> {
        int_decimal(self.id as int)
    }
}

/// A partition in the tree of a server.
#[derive(Debug)]
pub struct KafkaTreePartition {
    pub server_name: String,
    pub topic_name: String,
    pub id: i32,
    pub leader: i32,
}

impl View for KafkaTreePartition {
    type V = PartitionView;

    open spec fn view(&self) -> PartitionView {
        PartitionView {
            server_name: self.server_name@,
            topic_name: self.topic_name@,
            id: self.id,
            leader: self.leader,
        }
    }
}

impl Clone for KafkaTreePartition {
    fn clone(&self) -> (r: Self)
        ensures
            r@ == self@,
    {
        KafkaTreePartition {
            server_name: self.server_name.clone(),
            topic_name: self.topic_name.clone(),
            id: self.id,
            leader: self.leader,
        }
    }
}

impl PartialEq for KafkaTreePartition {
    fn eq(&self, other: &Self) -> (r: bool) {
        self.server_name == other.server_name && self.topic_name == other.topic_name && self.id
            == other.id && self.leader == other.leader
    }
}

impl Eq for KafkaTreePartition {

}

impl PartialEqSpecImpl for KafkaTreePartition {
    open spec fn obeys_eq_spec() -> bool {
        true
    }

    open spec fn eq_spec(&self, other: &Self) -> bool {
        self@ == other@
    }
}

impl KafkaTreePartition {
    /// The text under which the partition is listed: its id.
    pub fn to_string(&self) -> (r: String)
        ensures
            r@ == self@.display(),
    {
        i32_to_string(self.id)
    }
}

/// What a [`KafkaTreeTopic`] holds, as plain values.
pub struct TopicView {
    pub server_name: Seq<char>,
    pub name: Seq<char>,
    pub partitions: Seq<PartitionView>,
}

impl TopicView {
    /// A topic is shown as its name.
    pub open spec fn display(self) -> Seq<char> {
        self.name
    }
}

/// The tree entry of one partition of a topic.
pub open spec fn partition_from_md(
    server_name: Seq<char>,
    topic_name: Seq<char>,
    p: PartitionMetadata,
) -> PartitionView {
    PartitionView { server_name, topic_name, id: p.id, leader: p.leader }
}

/// The tree entry of a topic of the server `server_name`: the topic's name
/// and its partitions, in the metadata's order.
pub open spec fn topic_from_md(server_name: Seq<char>, topic: TopicMetadataView) -> TopicView {
    TopicView {
        server_name,
        name: topic.name,
        partitions: topic.partitions.map_values(
            |p: PartitionMetadata| partition_from_md(server_name, topic.name, p),
        ),
    }
}

/// A topic in the tree of a server.
#[derive(Debug)]
pub struct KafkaTreeTopic {
    pub server_name: String,
    pub name: String,
    pub partitions: Vec<KafkaTreePartition>,
}

impl View for KafkaTreeTopic {
    type V = TopicView;

    open spec fn view(&self) -> TopicView {
        TopicView {
            server_name: self.server_name@,
            name: self.name@,
            partitions: self.partitions@.map_values(|p: KafkaTreePartition| p@),
        }
    }
}

impl Clone for KafkaTreeTopic {
    fn clone(&self) -> (r: Self)
        ensures
            r@ == self@,
    {
        let mut partitions: Vec<KafkaTreePartition> = Vec::new();
        let mut i: usize = 0;
        while i < self.partitions.len()
            invariant
                i <= self.partitions.len(),
                partitions@.len() == i,
                forall|j: int| 0 <= j < i ==> partitions@[j]@ == self.partitions@[j]@,
            decreases self.partitions.len() - i,
        {
            partitions.push(self.partitions[i].clone());
            i += 1;
        }
        let r = KafkaTreeTopic {
            server_name: self.server_name.clone(),
            name: self.name.clone(),
            partitions,
        };
        assert(r@.partitions =~= self@.partitions);
        r
    }
}

impl PartialEq for KafkaTreeTopic {
    /// Two topics are the same when server and name agree; their partitions
    /// do not count.
    fn eq(&self, other: &Self) -> (r: bool) {
        self.server_name == other.server_name && self.name == other.name
    }
}

impl Eq for KafkaTreeTopic {

}

impl PartialEqSpecImpl for KafkaTreeTopic {
    open spec fn obeys_eq_spec() -> bool {
        true
    }

    open spec fn eq_spec(&self, other: &Self) -> bool {
        self.server_name@ == other.server_name@ && self.name@ == other.name@
    }
}

impl KafkaTreeTopic {
    /// The tree entry of a topic of the server `server_name`.
    pub fn from_md(server_name: &str, topic: &TopicMetadata) -> (r: Self)
        ensures
            r@ == topic_from_md(server_name@, topic@),
    {
        let mut partitions: Vec<KafkaTreePartition> = Vec::new();
        let mut i: usize = 0;
        while i < topic.partitions.len()
            invariant
                i <= topic.partitions.len(),
                partitions@.len() == i,
                forall|j: int|
                    0 <= j < i ==> partitions@[j]@ == partition_from_md(
                        server_name@,
                        topic.name@,
                        topic.partitions@[j],
                    ),
            decreases topic.partitions.len() - i,
        {
            let p = &topic.partitions[i];
            partitions.push(
                KafkaTreePartition {
                    server_name: String::from_str(server_name),
                    topic_name: topic.name.clone(),
                    id: p.id,
                    leader: p.leader,
                },
            );
            i += 1;
        }
        let r = Self {
            server_name: String::from_str(server_name),
            name: topic.name.clone(),
            partitions,
        };
        assert(r@.partitions =~= topic_from_md(server_name@, topic@).partitions);
        r
    }

    /// The partitions of the topic.
    pub fn partitions(&self) -> (r: &Vec<KafkaTreePartition>)
        ensures
            r == &self.partitions,
    {
        &self.partitions
    }

    /// The text under which the topic is listed: its name.
    pub fn to_string(&self) -> (r: String)
        ensures
            r@ == self@.display(),
    {
        self.name.clone()
    }
}

} // verus!
