use torrent_rpc::requests::torrent_set::TorrentSet;
use torrent_rpc::requests::Request;
use torrent_rpc::requests::RequestArguments;
use torrent_rpc::types::ConversionError;
use torrent_rpc::types::Priority;

#[test]
fn fresh_builder_serializes_to_ids_only() {
    let v = TorrentSet::new().arguments();
    assert_eq!(serde_json::to_string(&v).unwrap(), "{\"ids\":[]}");
}

#[test]
fn ids_alone_yields_exactly_one_key() {
    let v = TorrentSet::new().ids(vec![3, 7, 7]).arguments();
    let obj = v.as_object().unwrap();
    assert_eq!(obj.len(), 1);
    let ids: Vec<u64> = obj
        .get("ids")
        .unwrap()
        .as_array()
        .unwrap()
        .iter()
        .map(|x| x.as_u64().unwrap())
        .collect();
    assert_eq!(ids, vec![3, 7, 7]);
}

#[test]
fn id_chain_matches_ids_call() {
    let one_by_one = TorrentSet::new().id(1).id(2).arguments();
    let at_once = TorrentSet::new().ids(vec![1, 2]).arguments();
    assert_eq!(one_by_one, at_once);
    let ids: Vec<u64> = one_by_one["ids"]
        .as_array()
        .unwrap()
        .iter()
        .map(|x| x.as_u64().unwrap())
        .collect();
    assert_eq!(ids, vec![1, 2]);
}

#[test]
fn ids_call_replaces_earlier_id_calls() {
    let v = TorrentSet::new().id(5).ids(vec![9]).arguments();
    let ids: Vec<u64> = v["ids"]
        .as_array()
        .unwrap()
        .iter()
        .map(|x| x.as_u64().unwrap())
        .collect();
    assert_eq!(ids, vec![9]);
}

#[test]
fn last_write_wins_for_one_key() {
    let v = TorrentSet::new()
        .set_download_limit(1000)
        .set_download_limit(2000)
        .arguments();
    assert_eq!(v["downloadLimit"].as_u64(), Some(2000));
    assert_eq!(v.as_object().unwrap().len(), 2);
}

#[test]
fn last_write_wins_when_interleaved() {
    let v = TorrentSet::new()
        .set_upload_limit(10)
        .set_download_limit(1)
        .set_upload_limit(30)
        .arguments();
    assert_eq!(v["uploadLimit"].as_u64(), Some(30));
    assert_eq!(v["downloadLimit"].as_u64(), Some(1));
}

#[test]
fn download_limit_is_an_unsigned_integer() {
    let v = TorrentSet::new().set_download_limit(5000).arguments();
    assert!(v["downloadLimit"].is_u64());
    assert_eq!(v["downloadLimit"].as_u64(), Some(5000));
}

#[test]
fn seed_ratio_limit_is_a_floating_value() {
    let ratio = serde_json::Number::from_f64(1.5);
    let b = TorrentSet::new().set_seed_ratio_limit(ratio).unwrap();
    let v = b.arguments();
    assert!(v["seedRatioLimit"].is_f64());
    assert_eq!(v["seedRatioLimit"].as_f64(), Some(1.5));
}

#[test]
fn non_finite_seed_ratio_fails_construction() {
    for bad in [f64::NAN, f64::INFINITY, f64::NEG_INFINITY] {
        let ratio = serde_json::Number::from_f64(bad);
        assert!(ratio.is_none());
        let r = TorrentSet::new().set_seed_ratio_limit(ratio);
        assert!(matches!(r, Err(ConversionError::NonFinite)));
    }
}

#[test]
fn method_name_is_constant() {
    assert_eq!(TorrentSet::new().method_name(), "torrent-set");
    let mutated = TorrentSet::new().id(4).set_download_limited(true);
    assert_eq!(mutated.method_name(), "torrent-set");
}

#[test]
fn bandwidth_priority_wire_values() {
    let high = TorrentSet::new().set_bandwidth_priority(Priority::High).arguments();
    assert_eq!(high["bandwidthPriority"].as_i64(), Some(1));
    let normal = TorrentSet::new().set_bandwidth_priority(Priority::Normal).arguments();
    assert_eq!(normal["bandwidthPriority"].as_i64(), Some(0));
    let low = TorrentSet::new().set_bandwidth_priority(Priority::Low).arguments();
    assert_eq!(low["bandwidthPriority"].as_i64(), Some(-1));
}

#[test]
fn boolean_setters_pass_through() {
    let v = TorrentSet::new()
        .set_download_limited(true)
        .set_honors_session_limits(false)
        .set_upload_limited(true)
        .arguments();
    assert_eq!(v["downloadLimited"], serde_json::Value::Bool(true));
    assert_eq!(v["honorsSessionLimits"], serde_json::Value::Bool(false));
    assert_eq!(v["uploadLimited"], serde_json::Value::Bool(true));
}

#[test]
fn location_passes_through_as_string() {
    let v = TorrentSet::new()
        .set_location(String::from("/var/downloads"))
        .arguments();
    assert_eq!(v["location"].as_str(), Some("/var/downloads"));
}

#[test]
fn unsigned_setters_use_their_wire_keys() {
    let v = TorrentSet::new()
        .set_peer_limit(11)
        .set_queue_position(2)
        .set_seed_idle_limit(30)
        .set_upload_limit(900)
        .arguments();
    assert_eq!(v["peer-limit"].as_u64(), Some(11));
    assert_eq!(v["queuePosition"].as_u64(), Some(2));
    assert_eq!(v["seedIdleLimit"].as_u64(), Some(30));
    assert_eq!(v["uploadLimit"].as_u64(), Some(900));
    assert_eq!(v.as_object().unwrap().len(), 5);
}

#[test]
fn serialization_leaves_the_builder_usable() {
    let b = TorrentSet::new().id(8).set_download_limit(42);
    let first = b.arguments();
    let second = b.arguments();
    assert_eq!(first, second);
    let extended = b.id(9).arguments();
    let ids: Vec<u64> = extended["ids"]
        .as_array()
        .unwrap()
        .iter()
        .map(|x| x.as_u64().unwrap())
        .collect();
    assert_eq!(ids, vec![8, 9]);
}

#[test]
fn cloned_builder_serializes_the_same() {
    let b = TorrentSet::new().ids(vec![4, 2]).set_peer_limit(7);
    let c = b.clone();
    assert_eq!(b.arguments(), c.arguments());
}

#[test]
fn overrides_and_ids_land_in_one_object() {
    let v = TorrentSet::new()
        .ids(vec![1, 2, 3])
        .set_download_limited(true)
        .set_download_limit(512)
        .set_location(String::from("elsewhere"))
        .arguments();
    let obj = v.as_object().unwrap();
    assert_eq!(obj.len(), 4);
    assert!(obj.contains_key("ids"));
    assert!(obj.contains_key("downloadLimited"));
    assert!(obj.contains_key("downloadLimit"));
    assert!(obj.contains_key("location"));
}
