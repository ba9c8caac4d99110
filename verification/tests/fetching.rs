use hdhomerun::channel::Channel;
use hdhomerun::client::{FetchError, HdHomerunClient, Transfer};
use hdhomerun::decode::DecodeError;
use hdhomerun::schema::{FieldFault, FieldName};

const BODY: &str = r#"[{"GuideNumber":"2.1","GuideName":"Test","VideoCodec":"MPEG2","AudioCodec":"AC3","URL":"http://stream/1","HD":1}]"#;

fn client() -> HdHomerunClient {
    HdHomerunClient::new("http://10.0.0.4/lineup.json".to_string()).unwrap()
}

fn reply(status: u16, body: &str) -> Transfer {
    Transfer::Reply { status, body: body.as_bytes().to_vec() }
}

#[test]
fn client_takes_a_well_formed_uri() {
    let client = HdHomerunClient::new("http://10.0.0.4/lineup.json".to_string()).unwrap();
    assert_eq!(client.uri(), "http://10.0.0.4/lineup.json");
    let client = HdHomerunClient::new("https://tuner.local:8080/lineup.json?show=all".to_string());
    assert_eq!(client.unwrap().uri(), "https://tuner.local:8080/lineup.json?show=all");
}

#[test]
fn client_refuses_a_malformed_uri() {
    assert!(HdHomerunClient::new(String::new()).is_none());
    assert!(HdHomerunClient::new("lineup.json".to_string()).is_none());
    assert!(HdHomerunClient::new("/lineup.json".to_string()).is_none());
    assert!(HdHomerunClient::new("http://".to_string()).is_none());
    assert!(HdHomerunClient::new("http://10.0.0.4:port/".to_string()).is_none());
    assert!(HdHomerunClient::new("//10.0.0.4/lineup.json".to_string()).is_none());
}

#[test]
fn successful_reply_gives_the_lineup() {
    let mut client = client();
    let lineup = client.get_lineup(reply(200, BODY)).unwrap();
    assert_eq!(
        lineup,
        vec![Channel {
            guide_number: "2.1".to_string(),
            guide_name: "Test".to_string(),
            video_codec: "MPEG2".to_string(),
            audio_codec: "AC3".to_string(),
            url: "http://stream/1".to_string(),
            hd: Some(1),
            favorite: None,
        }]
    );
    assert_eq!(client.uri(), "http://10.0.0.4/lineup.json");
}

#[test]
fn every_success_status_is_decoded() {
    let mut client = client();
    for status in [200u16, 201, 204, 226, 299] {
        assert_eq!(client.get_lineup(reply(status, "[]")), Ok(vec![]));
    }
}

#[test]
fn other_statuses_are_failures() {
    let mut client = client();
    for status in [0u16, 100, 199, 300, 301, 404, 500, 503, 999, u16::MAX] {
        assert_eq!(
            client.get_lineup(reply(status, BODY)),
            Err(FetchError::Status { code: status })
        );
    }
}

#[test]
fn transport_failure_is_reported_with_its_reason() {
    let mut client = client();
    assert_eq!(
        client.get_lineup(Transfer::Failed { reason: "connection refused".to_string() }),
        Err(FetchError::Transport { reason: "connection refused".to_string() })
    );
    assert_eq!(
        client.get_lineup(Transfer::Failed { reason: String::new() }),
        Err(FetchError::Transport { reason: String::new() })
    );
}

#[test]
fn malformed_body_is_a_decode_failure() {
    let mut client = client();
    assert_eq!(
        client.get_lineup(reply(200, r#"{"GuideNumber":"2.1"}"#)),
        Err(FetchError::Decode(DecodeError::NotAList))
    );
    assert_eq!(
        client.get_lineup(reply(200, r#"[{"GuideNumber":"2.1"}]"#)),
        Err(FetchError::Decode(DecodeError::Field {
            index: 0,
            field: FieldName::GuideName,
            fault: FieldFault::Missing
        }))
    );
    assert_eq!(
        client.get_lineup(reply(200, "[3]")),
        Err(FetchError::Decode(DecodeError::NotARecord { index: 0 }))
    );
    assert!(matches!(
        client.get_lineup(reply(200, "<html>")),
        Err(FetchError::Decode(DecodeError::Syntax { .. }))
    ));
    assert!(matches!(
        client.get_lineup(reply(200, "")),
        Err(FetchError::Decode(DecodeError::Syntax { .. }))
    ));
}

#[test]
fn client_can_be_asked_again_after_a_failure() {
    let mut client = client();
    assert!(client.get_lineup(reply(200, "{")).is_err());
    assert!(client.get_lineup(reply(500, "[]")).is_err());
    assert_eq!(client.get_lineup(reply(200, "[]")), Ok(vec![]));
}
