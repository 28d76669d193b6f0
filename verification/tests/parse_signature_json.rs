use mpc_signing::mpc::utils::parse_signature_json::{EndpointSignatureData, Participant};

fn get_testing_data() -> String {
    let data = r#"
        {
            "participants": [
                {
                    "server_id": 1,
                    "url": "http://127.0.0.1:3001"
                },
                {
                    "server_id": 2,
                    "url": "http://127.0.0.1:3002"
                }
            ],
            "data_to_sign": "7b736f6d652c6172626974726172792c646174612c746f2c7369676e7d",
            "timestamp": "16816533390"
        }
        "#;

    data.to_string()
}

fn parse(json_str: &str) -> Result<EndpointSignatureData, String> {
    let value: serde_json::Value = serde_json::from_str(json_str).map_err(|e| e.to_string())?;
    let mut participants = Vec::new();
    for p in value["participants"].as_array().ok_or("participants")? {
        let id = p["server_id"].as_u64().ok_or("server_id")?;
        let url = p["url"].as_str().ok_or("url")?;
        participants.push(Participant::new(u16::try_from(id).map_err(|e| e.to_string())?, url.to_string()));
    }
    Ok(EndpointSignatureData::new(
        participants,
        value["data_to_sign"].as_str().ok_or("data_to_sign")?.to_string(),
        value["timestamp"].as_str().ok_or("timestamp")?.to_string(),
    ))
}

#[test]
fn test_parse_json_data() {
    let json_str = get_testing_data();

    if let Ok(json_data) = parse(json_str.as_str()) {
        assert_eq!(json_data.participant_count(), 2);
        assert_eq!(json_data.participant_id(0), 1);
        assert_eq!(json_data.participant_id(1), 2);
        assert_eq!(
            json_data.data_to_sign(),
            "7b736f6d652c6172626974726172792c646174612c746f2c7369676e7d"
        );
        assert_eq!(json_data.timestamp(), "16816533390");
    } else {
        assert!(false);
    }
}

#[test]
fn test_ids() {
    let json_str = get_testing_data();

    if let Ok(json_data) = parse(json_str.as_str()) {
        let ids = json_data.get_ids();
        assert_eq!(ids[0], 1);
        assert_eq!(ids[1], 2);
    } else {
        assert!(false);
    }
}

#[test]
fn test_urls() {
    let json_str = get_testing_data();

    if let Ok(json_data) = parse(json_str.as_str()) {
        let urls = json_data.get_urls();
        assert_eq!(urls[0], "http://127.0.0.1:3001");
        assert_eq!(urls[1], "http://127.0.0.1:3002");
    } else {
        assert!(false);
    }
}

#[test]
fn participant_url_by_position() {
    let data = parse(get_testing_data().as_str()).unwrap();
    assert_eq!(data.participant_url(0), "http://127.0.0.1:3001");
    assert_eq!(data.participant_url(1), "http://127.0.0.1:3002");
}

#[test]
fn request_without_participants() {
    let data = EndpointSignatureData::new(Vec::new(), String::from("00"), String::from("1"));
    assert_eq!(data.participant_count(), 0);
    assert_eq!(data.get_ids(), Vec::<u16>::new());
    assert_eq!(data.get_urls(), Vec::<String>::new());
}
