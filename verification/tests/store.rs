use bson::spec::BinarySubtype;
use bson::Binary;
use bson::Bson;
use bson::Document;
use kators::kafka::KafkaOpsError;
use kators::kafka::KafkaServer;
use kators::kafka::Password;
use rdkafka::message::FromBytes;

fn create_ks() -> KafkaServer {
    KafkaServer::new(
        "my_server".to_string(),
        "10.53.91.21:9093".to_string(),
        false,
        Some("/Users/sbt-sementsov-av/projects/certs/kafka.p12".to_string()),
        Some(Password::new("123456").unwrap()),
        "SSL".to_string(),
        100,
        102400,
    )
}

fn bytes(v: &Vec<u8>) -> Bson {
    Bson::Binary(Binary { subtype: BinarySubtype::Generic, bytes: v.clone() })
}

/// Writes the settings of a server down field by field.
fn to_document(ks: &KafkaServer) -> Document {
    let mut doc = Document::new();
    doc.insert("name", ks.name.clone());
    doc.insert("bootstrap", ks.bootstrap.clone());
    doc.insert("ssl_verification", ks.ssl_verification);
    match &ks.ssl_keystore_location {
        Some(location) => doc.insert("ssl_keystore_location", location.clone()),
        None => doc.insert("ssl_keystore_location", Bson::Null),
    };
    match &ks.ssl_keystore_password {
        Some(password) => {
            let mut p = Document::new();
            p.insert("len", password.len() as i64);
            p.insert("pwd_data", bytes(password.pwd_data()));
            p.insert("iv", bytes(password.iv()));
            doc.insert("ssl_keystore_password", p)
        }
        None => doc.insert("ssl_keystore_password", Bson::Null),
    };
    doc.insert("ssl_security_protocol", ks.ssl_security_protocol.clone());
    doc.insert("message_max_bytes", ks.message_max_bytes as i64);
    doc.insert("fetch_max_bytes", ks.fetch_max_bytes as i64);
    doc
}

/// Reads the settings of a server that were written down field by field.
fn from_document(doc: &Document) -> KafkaServer {
    KafkaServer::new(
        doc.get_str("name").unwrap().to_string(),
        doc.get_str("bootstrap").unwrap().to_string(),
        doc.get_bool("ssl_verification").unwrap(),
        doc.get_str("ssl_keystore_location").ok().map(|s| s.to_string()),
        doc.get_document("ssl_keystore_password").ok().map(|p| {
            Password::from_parts(
                p.get_i64("len").unwrap() as usize,
                p.get_binary_generic("pwd_data").unwrap().clone(),
                p.get_binary_generic("iv").unwrap().clone(),
            )
        }),
        doc.get_str("ssl_security_protocol").unwrap().to_string(),
        doc.get_i64("message_max_bytes").unwrap() as u64,
        doc.get_i64("fetch_max_bytes").unwrap() as u64,
    )
}

fn read(data: &[u8]) -> Option<KafkaServer> {
    bson::from_slice::<Document>(data).ok().map(|doc| from_document(&doc))
}

fn test_get_all(db: &sled::Db) {
    let servers = db.open_tree("servers").unwrap();
    let ks = create_ks();
    let data = bson::to_vec(&to_document(&ks)).unwrap();
    servers.insert("my_server", data).unwrap();

    let loaded: Vec<Option<KafkaServer>> =
        servers.iter().map(|v| v.ok().and_then(|(_, item)| read(item.as_ref()))).collect();
    let kss = KafkaServer::all(loaded);
    assert_eq!(1, kss.len());
    assert_eq!(
        "123456",
        str::from_bytes(&kss[0].ssl_keystore_password.as_ref().unwrap().decrypt().unwrap())
            .unwrap()
    );
}

#[test]
fn test_db_store() {
    let db: sled::Db =
        sled::Config::default().path("/tmp/my_test_db").temporary(true).open().unwrap();
    let servers = db.open_tree("servers").unwrap();

    let ks = create_ks();
    let data = bson::to_vec(&to_document(&ks)).unwrap();
    servers.insert("my_server", data).unwrap();

    // Read from servers
    let found = servers.get("my_server").unwrap().and_then(|data| read(data.as_ref()));
    let ks_read = KafkaServer::from_db(found, "my_server").unwrap();
    assert_eq!(
        "123456",
        str::from_bytes(&ks_read.ssl_keystore_password.unwrap().decrypt().unwrap()).unwrap()
    );

    db.drop_tree("servers").unwrap();

    // get all
    test_get_all(&db);
}

#[test]
fn a_server_that_is_not_stored_is_not_found() {
    let db: sled::Db = sled::Config::default().temporary(true).open().unwrap();
    let servers = db.open_tree("servers").unwrap();
    let found = servers.get("my server").unwrap().and_then(|data| read(data.as_ref()));
    let r = KafkaServer::from_db(found, "my server");
    assert!(matches!(r, Err(KafkaOpsError::ServerConfigNotFound(name)) if name == "my server"));
}

#[test]
fn an_entry_that_cannot_be_read_is_passed_over() {
    let db: sled::Db = sled::Config::default().temporary(true).open().unwrap();
    let servers = db.open_tree("servers").unwrap();
    servers.insert("a", bson::to_vec(&to_document(&create_ks())).unwrap()).unwrap();
    servers.insert("b", vec![1u8, 2, 3]).unwrap();
    let mut other = create_ks();
    other.name = "other".to_string();
    servers.insert("c", bson::to_vec(&to_document(&other)).unwrap()).unwrap();
    let loaded: Vec<Option<KafkaServer>> =
        servers.iter().map(|v| v.ok().and_then(|(_, item)| read(item.as_ref()))).collect();
    assert_eq!(loaded.len(), 3);
    let kss = KafkaServer::all(loaded);
    let names: Vec<&str> = kss.iter().map(|s| s.name.as_str()).collect();
    assert_eq!(names, vec!["my_server", "other"]);
}
