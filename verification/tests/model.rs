use kators::topology::model::BrokerMetadata;
use kators::topology::model::KafkaTreeBroker;
use kators::topology::model::KafkaTreePartition;
use kators::topology::model::KafkaTreeTopic;
use kators::topology::model::PartitionMetadata;
use kators::topology::model::TopicMetadata;

fn broker(id: i32, host: &str, port: i32) -> BrokerMetadata {
    BrokerMetadata { id, host: host.to_string(), port }
}

#[test]
fn broker_is_shown_as_host_and_port() {
    let b = KafkaTreeBroker::from_md("clusterA".to_string(), &broker(1, "kafka-1", 9092));
    assert_eq!(b.to_string(), "kafka-1:9092");
    assert_eq!(b.server_name(), "clusterA");
    assert_eq!(b.id(), 1);
    assert_eq!(b.host(), "kafka-1");
    assert_eq!(b.port(), 9092);
    let odd = KafkaTreeBroker::from_md("c".to_string(), &broker(2, "", -1));
    assert_eq!(odd.to_string(), ":-1");
}

#[test]
fn brokers_are_equal_when_all_they_hold_is() {
    let a = KafkaTreeBroker::from_md("clusterA".to_string(), &broker(1, "kafka-1", 9092));
    let same = KafkaTreeBroker::from_md("clusterA".to_string(), &broker(1, "kafka-1", 9092));
    assert!(a == same);
    assert!(a == a.clone());
    let variants = [
        KafkaTreeBroker::from_md("clusterB".to_string(), &broker(1, "kafka-1", 9092)),
        KafkaTreeBroker::from_md("clusterA".to_string(), &broker(2, "kafka-1", 9092)),
        KafkaTreeBroker::from_md("clusterA".to_string(), &broker(1, "kafka-2", 9092)),
        KafkaTreeBroker::from_md("clusterA".to_string(), &broker(1, "kafka-1", 9093)),
    ];
    for other in &variants {
        assert!(a != *other);
    }
}

#[test]
fn topic_is_made_from_metadata() {
    let md = TopicMetadata {
        name: "orders".to_string(),
        partitions: vec![
            PartitionMetadata { id: 0, leader: 2 },
            PartitionMetadata { id: 1, leader: 3 },
        ],
    };
    let topic = KafkaTreeTopic::from_md("clusterA", &md);
    assert_eq!(topic.server_name, "clusterA");
    assert_eq!(topic.name, "orders");
    assert_eq!(topic.to_string(), "orders");
    assert_eq!(topic.partitions().len(), 2);
    let p = &topic.partitions()[1];
    assert_eq!(p.server_name, "clusterA");
    assert_eq!(p.topic_name, "orders");
    assert_eq!(p.id, 1);
    assert_eq!(p.leader, 3);
    assert_eq!(p.to_string(), "1");
    assert_eq!(topic.partitions()[0].id, 0);
    assert_eq!(topic.partitions()[0].leader, 2);
}

#[test]
fn topic_without_partitions() {
    let md = TopicMetadata { name: "empty".to_string(), partitions: vec![] };
    let topic = KafkaTreeTopic::from_md("s", &md);
    assert!(topic.partitions().is_empty());
}

#[test]
fn topics_are_equal_by_server_and_name_alone() {
    let a = KafkaTreeTopic {
        server_name: "clusterA".to_string(),
        name: "orders".to_string(),
        partitions: vec![],
    };
    let refreshed = KafkaTreeTopic {
        server_name: "clusterA".to_string(),
        name: "orders".to_string(),
        partitions: vec![KafkaTreePartition {
            server_name: "clusterA".to_string(),
            topic_name: "orders".to_string(),
            id: 0,
            leader: 1,
        }],
    };
    let other_name = KafkaTreeTopic {
        server_name: "clusterA".to_string(),
        name: "payments".to_string(),
        partitions: vec![],
    };
    let other_server = KafkaTreeTopic {
        server_name: "clusterB".to_string(),
        name: "orders".to_string(),
        partitions: vec![],
    };
    assert!(a == refreshed);
    assert!(a != other_name);
    assert!(a != other_server);
    let copy = refreshed.clone();
    assert_eq!(copy.partitions().len(), 1);
    assert!(copy.partitions()[0] == refreshed.partitions()[0]);
}

#[test]
fn partitions_are_equal_when_all_they_hold_is() {
    let p = KafkaTreePartition {
        server_name: "clusterA".to_string(),
        topic_name: "t".to_string(),
        id: 2,
        leader: 1,
    };
    assert!(p == p.clone());
    let mut q = p.clone();
    q.leader = 5;
    assert!(p != q);
    let mut q = p.clone();
    q.id = 3;
    assert!(p != q);
    let mut q = p.clone();
    q.topic_name = "u".to_string();
    assert!(p != q);
    let mut q = p.clone();
    q.server_name = "clusterB".to_string();
    assert!(p != q);
    assert_eq!(p.to_string(), "2");
    q.id = -7;
    assert_eq!(q.to_string(), "-7");
}
