use fil_consensus::beacon::BeaconEntry;
use fil_consensus::beacon_json::{
    deserialize, serialize, BeaconEntryJson, BeaconEntryJsonRef, InvalidData, JsonHelper,
};
use fil_consensus::beacon_json_vec;

fn to_text(form: &JsonHelper) -> String {
    let mut map = serde_json::Map::new();
    map.insert("Round".to_string(), serde_json::Value::from(form.round));
    map.insert("Data".to_string(), serde_json::Value::from(form.data.clone()));
    serde_json::to_string(&serde_json::Value::Object(map)).unwrap()
}

fn from_text(text: &str) -> JsonHelper {
    let value: serde_json::Value = serde_json::from_str(text).unwrap();
    JsonHelper {
        round: value["Round"].as_u64().unwrap(),
        data: value["Data"].as_str().unwrap().to_string(),
    }
}

#[test]
fn beacon_entry_roundtrip() {
    let entry = BeaconEntry::new(7, b"sig7".to_vec());
    let serialized = to_text(&serialize(BeaconEntryJsonRef(&entry).0));
    assert_eq!(serialized, "{\"Data\":\"c2lnNw==\",\"Round\":7}");
    let parsed = BeaconEntryJson(deserialize(&from_text(&serialized)).unwrap());
    let back: BeaconEntry = parsed.into();
    assert_eq!(back.round(), 7);
    assert_eq!(back.data(), b"sig7");
    assert_eq!(entry, back);
}

#[test]
fn roundtrip_of_other_entries() {
    let samples: Vec<(u64, Vec<u8>)> = vec![
        (0, vec![]),
        (1, vec![0]),
        (u64::MAX, vec![255, 254, 253]),
        (42, (0..=255).collect()),
    ];
    for (round, data) in samples {
        let entry = BeaconEntry::new(round, data);
        let back = deserialize(&from_text(&to_text(&serialize(&entry)))).unwrap();
        assert_eq!(entry, back);
    }
}

#[test]
fn signature_is_written_in_base64() {
    let form = serialize(&BeaconEntry::new(3, vec![0xfb, 0xff]));
    assert_eq!(form.round, 3);
    assert_eq!(form.data, "+/8=");
    assert_eq!(serialize(&BeaconEntry::new(3, vec![])).data, "");
}

#[test]
fn signature_is_read_from_base64() {
    let entry = deserialize(&JsonHelper { round: 9, data: "AQID".to_string() }).unwrap();
    assert_eq!(entry, BeaconEntry::new(9, vec![1, 2, 3]));
}

#[test]
fn signature_that_is_not_base64_is_refused() {
    for bad in ["!!!", "c2lnNw", "c2lnNw=", "c2ln Nw=="] {
        let got = deserialize(&JsonHelper { round: 1, data: bad.to_string() });
        assert_eq!(got, Err(InvalidData));
    }
}

#[test]
fn lists_of_entries() {
    let entries = vec![BeaconEntry::new(1, vec![1]), BeaconEntry::new(2, vec![2, 2])];
    let forms = beacon_json_vec::serialize(&entries);
    assert_eq!(forms.len(), 2);
    assert_eq!(forms[0].data, "AQ==");
    assert_eq!(forms[1].round, 2);
    let back = beacon_json_vec::deserialize(&Some(forms)).unwrap();
    assert_eq!(back, entries);
}

#[test]
fn absent_list_is_empty() {
    assert_eq!(beacon_json_vec::deserialize(&None), Ok(Vec::new()));
    assert_eq!(beacon_json_vec::deserialize(&Some(Vec::new())), Ok(Vec::new()));
}

#[test]
fn list_with_a_bad_signature_is_refused() {
    let forms = vec![
        JsonHelper { round: 1, data: "AQ==".to_string() },
        JsonHelper { round: 2, data: "*".to_string() },
    ];
    assert_eq!(beacon_json_vec::deserialize(&Some(forms)), Err(InvalidData));
}
