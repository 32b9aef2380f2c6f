//! The panel of one topic: what the operator has chosen there, and what
//! follows from it for reads and for commands.

use crate::kafka::admin_ops::AdminCommand;
use crate::kafka::KafkaServer;
use crate::text::str_eq;
use crate::topology::model::KafkaTreeTopic;
use crate::topology::model::TopicView;
use vstd::prelude::*;
use vstd::string::StringExecFns;

verus! {

/// The part of the panel that is shown.
#[derive(Debug, Clone, Copy, PartialEq, Eq, Structural)]
pub enum InfoPanel {
    Properties,
    Data,
}

impl InfoPanel {
    /// The name of the part as the operator sees it.
    pub fn to_string(&self) -> (r: String)
        ensures
            r@ == match *self {
                InfoPanel::Properties => "Properties"@,
                InfoPanel::Data => "Data"@,
            },
    {
        match self {
            InfoPanel::Properties => String::from_str("Properties"),
            InfoPanel::Data => String::from_str("Data"),
        }
    }
}

/// From where in a partition messages are read.
#[derive(Debug, Clone, Copy, PartialEq, Eq, Structural)]
pub enum MessagesOffset {
    FromTail,
    FromStart,
    FromOffset,
}

impl MessagesOffset {
    /// The name of the choice as the operator sees it.
    pub fn to_string(&self) -> (r: String)
        ensures
            r@ == match *self {
                MessagesOffset::FromTail => "Tail"@,
                MessagesOffset::FromStart => "Start"@,
                MessagesOffset::FromOffset => "Offset"@,
            },
    {
        match self {
            MessagesOffset::FromTail => String::from_str("Tail"),
            MessagesOffset::FromStart => String::from_str("Start"),
            MessagesOffset::FromOffset => String::from_str("Offset"),
        }
    }
}

/// How the messages of a topic are shown and how many of them are read.
#[derive(Debug)]
pub struct TopicPref {
    /// `server:topic`, the name under which the preferences are kept.
    pub key: String,
    /// `Binary` or `String`.
    pub key_format: String,
    /// `Binary` or `String`.
    pub data_format: String,
    /// The number of messages that a read asks for.
    pub last_messages: u32,
}

/// The name under which the preferences of a topic are kept.
pub open spec fn pref_key(topic: TopicView) -> Seq<char> {
    topic.server_name + seq![':'] + topic.name
}

impl TopicPref {
    /// The preferences of a topic for which none are kept: keys and data in
    /// binary, 200 messages.
    pub fn defaults(key: String) -> (r: Self)
        ensures
            r.key == key,
            r.key_format@ == "Binary"@,
            r.data_format@ == "Binary"@,
            r.last_messages == 200,
    {
        Self {
            key,
            key_format: String::from_str("Binary"),
            data_format: String::from_str("Binary"),
            last_messages: 200,
        }
    }

    /// The preferences to go by, from what was found in the store under
    /// `name`: what was found, and the defaults where nothing was found or
    /// what was found could not be read.
    pub fn from_db(name: String, stored: Option<TopicPref>) -> (r: Self)
        ensures
            match stored {
                Some(found) => r == found,
                None => r.key == name && r.key_format@ == "Binary"@ && r.data_format@ == "Binary"@
                    && r.last_messages == 200,
            },
    {
        match stored {
            Some(found) => found,
            None => Self::defaults(name),
        }
    }
}

/// Which partitions a read of the topic covers.
#[derive(Debug)]
pub enum ReadScope {
    /// Nothing is read.
    Nothing,
    /// Every one of the given partitions, one after the other; a partition
    /// whose read fails is passed over.
    AllPartitions(Vec<i32>),
    /// The given partition alone; a failure of its read is the outcome.
    OnePartition(i32),
}

/// What has to be fetched from the stores after another topic was shown.
#[derive(Debug)]
pub struct TopicLoad {
    /// The name under which the preferences of the topic are kept, where
    /// they have to be read.
    pub pref_key: Option<String>,
    /// The name of the server whose settings have to be read, and to which a
    /// connection has to be opened.
    pub server_name: Option<String>,
}

/// A number of partitions as a 32-bit number; a number beyond that range
/// counts as the largest.
pub open spec fn partition_count(n: nat) -> i32 {
    if n <= i32::MAX {
        n as i32
    } else {
        i32::MAX
    }
}

/// The state of the panel of a topic.
#[derive(Debug)]
pub struct TopicInfo {
    pub server: KafkaServer,
    pub topic: KafkaTreeTopic,
    pub selected_panel: InfoPanel,
    pub partition_len: i32,
    pub replication_factor: i32,
    pub topic_pref: TopicPref,
    pub filter: String,
    pub offset_type: MessagesOffset,
    pub offset: i32,
    /// The partition that is read, or -1 for all of them.
    pub partition: i32,
    /// Whether a connection to the topic's server is open.
    pub connected: bool,
    /// The row of the data that is shown in full, counted from 1.
    pub selected_data: usize,
}

fn count_of(n: usize) -> (r: i32)
    ensures
        r == partition_count(n as nat),
{
    if n <= 0x7fff_ffff {
        n as i32
    } else {
        0x7fff_ffff
    }
}

impl TopicInfo {
    /// The panel before any topic is shown.
    pub fn new() -> (r: Self)
        ensures
            r.server@ == KafkaServer::default_view(),
            r.topic@ == (TopicView {
                server_name: Seq::empty(),
                name: Seq::empty(),
                partitions: Seq::empty(),
            }),
            r.selected_panel == InfoPanel::Properties,
            r.partition_len == 0,
            r.replication_factor == -1,
            r.topic_pref.key@ == "default"@,
            r.topic_pref.key_format@ == "Binary"@,
            r.topic_pref.data_format@ == "Binary"@,
            r.topic_pref.last_messages == 200,
            r.filter@ == Seq::<char>::empty(),
            r.offset_type == MessagesOffset::FromTail,
            r.offset == 0,
            r.partition == -1,
            !r.connected,
            r.selected_data == 1,
    {
        let topic = KafkaTreeTopic {
            server_name: String::new(),
            name: String::new(),
            partitions: Vec::new(),
        };
        assert(topic@.partitions =~= Seq::empty());
        Self {
            server: KafkaServer::default(),
            topic,
            selected_panel: InfoPanel::Properties,
            partition_len: 0,
            replication_factor: -1,
            topic_pref: TopicPref::defaults(String::from_str("default")),
            filter: String::new(),
            offset_type: MessagesOffset::FromTail,
            offset: 0,
            partition: -1,
            connected: false,
            selected_data: 1,
        }
    }

    /// Shows `topic` in the panel and says what has to be fetched for it.
    /// Another topic than the one shown takes its place, and its preferences
    /// have to be read; the same topic changes nothing. Where the topic
    /// shown then belongs to another server than the one that is held, that
    /// server's settings have to be read.
    pub fn set_topic(&mut self, topic: &KafkaTreeTopic) -> (load: TopicLoad)
        ensures
            ({
                let same = old(self).topic.server_name@ == topic.server_name@ && old(
                    self,
                ).topic.name@ == topic.name@;
                &&& same ==> final(self).topic == old(self).topic && final(self).partition_len
                    == old(self).partition_len && load.pref_key is None
                &&& !same ==> final(self).topic@ == topic@ && final(self).partition_len
                    == partition_count(topic.partitions@.len()) && (load.pref_key matches Some(key)
                    && key@ == pref_key(topic@))
                &&& match load.server_name {
                    Some(name) => name@ == final(self).topic.server_name@ && old(
                        self,
                    ).server.name@ != name@,
                    None => old(self).server.name@ == final(self).topic.server_name@,
                }
            }),
            final(self).server == old(self).server,
            final(self).selected_panel == old(self).selected_panel,
            final(self).replication_factor == old(self).replication_factor,
            final(self).topic_pref == old(self).topic_pref,
            final(self).filter == old(self).filter,
            final(self).offset_type == old(self).offset_type,
            final(self).offset == old(self).offset,
            final(self).partition == old(self).partition,
            final(self).connected == old(self).connected,
            final(self).selected_data == old(self).selected_data,
    {
        let mut key_to_read: Option<String> = None;
        if self.topic != *topic {
            self.topic = topic.clone();
            self.partition_len = count_of(topic.partitions.len());
            proof {
                reveal_strlit(":");
            }
            let mut key = topic.server_name.clone();
            key.append(":");
            key.append(topic.name.as_str());
            key_to_read = Some(key);
        }
        let server_name = if !str_eq(self.server.name.as_str(), self.topic.server_name.as_str()) {
            Some(self.topic.server_name.clone())
        } else {
            None
        };
        TopicLoad { pref_key: key_to_read, server_name }
    }

    /// Takes the settings of the topic's server as they were read, and
    /// whether a connection to it could be opened. Settings that could not
    /// be read change nothing.
    pub fn server_loaded(&mut self, found: Option<KafkaServer>, connected: bool)
        ensures
            match found {
                Some(server) => final(self).server == server && final(self).connected
                    == connected,
                None => final(self).server == old(self).server && final(self).connected == old(
                    self,
                ).connected,
            },
            final(self).topic == old(self).topic,
            final(self).selected_panel == old(self).selected_panel,
            final(self).partition_len == old(self).partition_len,
            final(self).replication_factor == old(self).replication_factor,
            final(self).topic_pref == old(self).topic_pref,
            final(self).filter == old(self).filter,
            final(self).offset_type == old(self).offset_type,
            final(self).offset == old(self).offset,
            final(self).partition == old(self).partition,
            final(self).selected_data == old(self).selected_data,
    {
        match found {
            Some(server) => {
                self.server = server;
                self.connected = connected;
            },
            None => {},
        }
    }

    /// Which partitions the next read covers. Without a connection nothing
    /// is read. A read from the tail covers every partition of the topic, in
    /// the topic's order, where no partition is chosen, and else the chosen
    /// one; the other kinds of read cover nothing.
    pub fn read_scope(&self) -> (r: ReadScope)
        ensures
            match r {
                ReadScope::Nothing => !self.connected || self.offset_type
                    != MessagesOffset::FromTail,
                ReadScope::AllPartitions(ids) => self.connected && self.offset_type
                    == MessagesOffset::FromTail && self.partition == -1 && ids@
                    == self.topic.partitions@.map_values(
                    |p: crate::topology::model::KafkaTreePartition| p.id,
                ),
                ReadScope::OnePartition(id) => self.connected && self.offset_type
                    == MessagesOffset::FromTail && self.partition != -1 && id == self.partition,
            },
    {
        if !self.connected {
            return ReadScope::Nothing;
        }
        match self.offset_type {
            MessagesOffset::FromTail => {
                if self.partition == -1 {
                    let mut ids: Vec<i32> = Vec::new();
                    let mut i: usize = 0;
                    while i < self.topic.partitions.len()
                        invariant
                            i <= self.topic.partitions.len(),
                            ids@.len() == i,
                            forall|j: int| 0 <= j < i ==> ids@[j] == self.topic.partitions@[j].id,
                        decreases self.topic.partitions.len() - i,
                    {
                        ids.push(self.topic.partitions[i].id);
                        i += 1;
                    }
                    ReadScope::AllPartitions(ids)
                } else {
                    ReadScope::OnePartition(self.partition)
                }
            },
            MessagesOffset::FromStart => ReadScope::Nothing,
            MessagesOffset::FromOffset => ReadScope::Nothing,
        }
    }

    /// The number of messages that a read of one partition asks for.
    pub fn read_count(&self) -> (r: i64)
        ensures
            r == self.topic_pref.last_messages,
    {
        self.topic_pref.last_messages as i64
    }

    /// The command that deletes the topic shown.
    pub fn remove_command(&self) -> (r: AdminCommand)
        ensures
            r matches AdminCommand::DeleteTopic(name) && name@ == self.topic.name@,
    {
        AdminCommand::DeleteTopic(self.topic.name.clone())
    }

    /// The command that gives the topic shown one partition more than it
    /// has.
    pub fn add_partition_command(&self) -> (r: AdminCommand)
        ensures
            r matches AdminCommand::AddPartition(name, total) && name@ == self.topic.name@
                && total == partition_count(self.topic.partitions@.len() + 1),
    {
        let total = if self.topic.partitions.len() < 0x7fff_ffff {
            count_of(self.topic.partitions.len() + 1)
        } else {
            0x7fff_ffff
        };
        AdminCommand::AddPartition(self.topic.name.clone(), total)
    }
}

} // verus!
