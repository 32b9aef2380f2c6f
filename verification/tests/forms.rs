use kators::kafka::password::Password;
use kators::kafka::AdminCommand;
use kators::kafka::KafkaOpsError;
use kators::kafka::KafkaServer;
use kators::topology::model::KafkaTreePartition;
use kators::topology::model::KafkaTreeTopic;
use kators::topology::server_info::ServerInfo;
use kators::topology::topic_info::InfoPanel;
use kators::topology::topic_info::MessagesOffset;
use kators::topology::topic_info::ReadScope;
use kators::topology::topic_info::TopicInfo;
use kators::topology::topic_info::TopicPref;

fn create_ks() -> KafkaServer {
    KafkaServer::new(
        "my_server".to_string(),
        "10.53.91.21:9093".to_string(),
        false,
        Some("/certs/kafka.p12".to_string()),
        Some(Password::new("123456").unwrap()),
        "SSL".to_string(),
        100,
        102400,
    )
}

fn topic(server: &str, name: &str, partitions: i32) -> KafkaTreeTopic {
    KafkaTreeTopic {
        server_name: server.to_string(),
        name: name.to_string(),
        partitions: (0..partitions)
            .map(|id| KafkaTreePartition {
                server_name: server.to_string(),
                topic_name: name.to_string(),
                id: id * 2,
                leader: 1,
            })
            .collect(),
    }
}

#[test]
fn new_form_has_the_defaults() {
    let mut info = ServerInfo::new();
    assert_eq!(info.ssl_keystore_location, "");
    assert_eq!(info.password, "");
    let ks = info.server().unwrap();
    assert_eq!(ks.name, "");
    assert_eq!(ks.bootstrap, "");
    assert!(!ks.ssl_verification);
    assert!(ks.ssl_keystore_location.is_none());
    assert!(ks.ssl_keystore_password.is_none());
    assert_eq!(ks.ssl_security_protocol, "PLAINTEXT");
    assert_eq!(ks.message_max_bytes, 100);
    assert_eq!(ks.fetch_max_bytes, 102400);
}

#[test]
fn form_of_a_server_shows_its_settings() {
    let ks = create_ks();
    let info = ServerInfo::from_server(&ks);
    assert_eq!(info.server.name, "my_server");
    assert_eq!(info.server.bootstrap, "10.53.91.21:9093");
    assert_eq!(info.ssl_keystore_location, "/certs/kafka.p12");
    assert_eq!(info.password, "");
    let bare = ServerInfo::from_server(&KafkaServer::default());
    assert_eq!(bare.ssl_keystore_location, "");
}

#[test]
fn form_keeps_the_stored_password_when_none_is_entered() {
    let ks = create_ks();
    let mut info = ServerInfo::from_server(&ks);
    let out = info.server().unwrap();
    assert_eq!(out.ssl_keystore_location, ks.ssl_keystore_location);
    let kept = out.ssl_keystore_password.unwrap();
    assert_eq!(kept.decrypt().unwrap(), b"123456".to_vec());
    assert_eq!(kept.iv(), ks.ssl_keystore_password.as_ref().unwrap().iv());
}

#[test]
fn form_encrypts_an_entered_password() {
    let mut info = ServerInfo::new();
    info.server.name = "clusterA".to_string();
    info.ssl_keystore_location = "/certs/a.p12".to_string();
    info.password = "s3cret".to_string();
    let out = info.server().unwrap();
    assert_eq!(out.name, "clusterA");
    assert_eq!(out.ssl_keystore_location, Some("/certs/a.p12".to_string()));
    assert_eq!(out.ssl_keystore_password.unwrap().decrypt().unwrap(), b"s3cret".to_vec());
    // The form itself is as it was.
    assert_eq!(info.password, "s3cret");
    assert_eq!(info.ssl_keystore_location, "/certs/a.p12");
}

#[test]
fn form_hands_back_a_cipher_failure() {
    let info = ServerInfo::from_server(&create_ks());
    let r = info.server_with(Some(Err(KafkaOpsError::Cipher)));
    assert!(matches!(r, Err(KafkaOpsError::Cipher)));
    let r = info.server_with(Some(Ok(Password::from_parts(1, vec![2], vec![3])))).unwrap();
    assert_eq!(r.ssl_keystore_password.unwrap().pwd_data(), &vec![2]);
}

#[test]
fn form_changes_server_only_for_another_name() {
    let mut info = ServerInfo::from_server(&create_ks());
    let mut edited = create_ks();
    edited.bootstrap = "elsewhere:1".to_string();
    info.set_server(&edited);
    assert_eq!(info.server.bootstrap, "10.53.91.21:9093");
    let mut other = create_ks();
    other.name = "other".to_string();
    other.bootstrap = "elsewhere:1".to_string();
    info.set_server(&other);
    assert_eq!(info.server.name, "other");
    assert_eq!(info.server.bootstrap, "elsewhere:1");
    assert_eq!(info.ssl_keystore_location, "/certs/kafka.p12");
}

#[test]
fn new_topic_panel() {
    let info = TopicInfo::new();
    assert_eq!(info.server.name, "");
    assert_eq!(info.topic.name, "");
    assert!(info.topic.partitions.is_empty());
    assert_eq!(info.selected_panel, InfoPanel::Properties);
    assert_eq!(info.partition_len, 0);
    assert_eq!(info.replication_factor, -1);
    assert_eq!(info.topic_pref.key, "default");
    assert_eq!(info.topic_pref.key_format, "Binary");
    assert_eq!(info.topic_pref.data_format, "Binary");
    assert_eq!(info.topic_pref.last_messages, 200);
    assert_eq!(info.filter, "");
    assert_eq!(info.offset_type, MessagesOffset::FromTail);
    assert_eq!(info.offset, 0);
    assert_eq!(info.partition, -1);
    assert!(!info.connected);
    assert_eq!(info.selected_data, 1);
    assert_eq!(info.read_count(), 200);
}

#[test]
fn showing_another_topic_asks_for_its_preferences_and_server() {
    let mut info = TopicInfo::new();
    let load = info.set_topic(&topic("clusterA", "orders", 3));
    assert_eq!(load.pref_key, Some("clusterA:orders".to_string()));
    assert_eq!(load.server_name, Some("clusterA".to_string()));
    assert_eq!(info.topic.name, "orders");
    assert_eq!(info.partition_len, 3);
    // Until the server is loaded it is asked for again; the preferences are not.
    let load = info.set_topic(&topic("clusterA", "orders", 5));
    assert_eq!(load.pref_key, None);
    assert_eq!(load.server_name, Some("clusterA".to_string()));
    assert_eq!(info.partition_len, 3);
    let mut ks = create_ks();
    ks.name = "clusterA".to_string();
    info.server_loaded(Some(ks), true);
    assert!(info.connected);
    let load = info.set_topic(&topic("clusterA", "orders", 5));
    assert_eq!(load.pref_key, None);
    assert_eq!(load.server_name, None);
    let load = info.set_topic(&topic("clusterA", "payments", 1));
    assert_eq!(load.pref_key, Some("clusterA:payments".to_string()));
    assert_eq!(load.server_name, None);
    assert_eq!(info.partition_len, 1);
}

#[test]
fn a_server_that_could_not_be_loaded_changes_nothing() {
    let mut info = TopicInfo::new();
    info.set_topic(&topic("clusterA", "orders", 3));
    info.server_loaded(None, true);
    assert_eq!(info.server.name, "");
    assert!(!info.connected);
    let mut ks = create_ks();
    ks.name = "clusterA".to_string();
    info.server_loaded(Some(ks), false);
    assert_eq!(info.server.name, "clusterA");
    assert!(!info.connected);
}

#[test]
fn read_scope_follows_the_choices() {
    let mut info = TopicInfo::new();
    info.set_topic(&topic("clusterA", "orders", 3));
    assert!(matches!(info.read_scope(), ReadScope::Nothing));
    info.connected = true;
    assert!(matches!(info.read_scope(), ReadScope::AllPartitions(ids) if ids == vec![0, 2, 4]));
    info.partition = 2;
    assert!(matches!(info.read_scope(), ReadScope::OnePartition(2)));
    info.offset_type = MessagesOffset::FromStart;
    assert!(matches!(info.read_scope(), ReadScope::Nothing));
    info.offset_type = MessagesOffset::FromOffset;
    assert!(matches!(info.read_scope(), ReadScope::Nothing));
    info.offset_type = MessagesOffset::FromTail;
    info.topic_pref.last_messages = 30;
    assert_eq!(info.read_count(), 30);
    info.topic_pref.last_messages = u32::MAX;
    assert_eq!(info.read_count(), 4294967295);
}

#[test]
fn commands_of_the_topic_panel() {
    let mut info = TopicInfo::new();
    info.set_topic(&topic("clusterA", "orders", 3));
    assert!(matches!(info.remove_command(), AdminCommand::DeleteTopic(name) if name == "orders"));
    assert!(matches!(info.add_partition_command(), AdminCommand::AddPartition(name, 4) if name == "orders"));
    info.set_topic(&topic("clusterA", "empty", 0));
    assert!(matches!(info.add_partition_command(), AdminCommand::AddPartition(name, 1) if name == "empty"));
}

#[test]
fn preferences_fall_back_to_the_defaults() {
    let p = TopicPref::from_db("clusterA:orders".to_string(), None);
    assert_eq!(p.key, "clusterA:orders");
    assert_eq!(p.key_format, "Binary");
    assert_eq!(p.data_format, "Binary");
    assert_eq!(p.last_messages, 200);
    let stored = TopicPref {
        key: "clusterA:orders".to_string(),
        key_format: "String".to_string(),
        data_format: "String".to_string(),
        last_messages: 30,
    };
    let p = TopicPref::from_db("ignored".to_string(), Some(stored));
    assert_eq!(p.key, "clusterA:orders");
    assert_eq!(p.key_format, "String");
    assert_eq!(p.data_format, "String");
    assert_eq!(p.last_messages, 30);
    let d = TopicPref::defaults("k".to_string());
    assert_eq!(d.key, "k");
    assert_eq!(d.last_messages, 200);
}

#[test]
fn names_of_the_choices() {
    assert_eq!(InfoPanel::Properties.to_string(), "Properties");
    assert_eq!(InfoPanel::Data.to_string(), "Data");
    assert_eq!(MessagesOffset::FromTail.to_string(), "Tail");
    assert_eq!(MessagesOffset::FromStart.to_string(), "Start");
    assert_eq!(MessagesOffset::FromOffset.to_string(), "Offset");
}
