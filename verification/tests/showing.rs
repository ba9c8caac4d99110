use hdhomerun::channel::Channel;
use hdhomerun::client::{FetchError, HdHomerunClient, Transfer};
use hdhomerun::decode::DecodeError;
use hdhomerun::handoff::FetchCoordinator;
use hdhomerun::player::{PlayRequest, PlayerController};
use hdhomerun::shell::Shell;

fn channel(name: &str, url: &str) -> Channel {
    Channel {
        guide_number: "1.1".to_string(),
        guide_name: name.to_string(),
        video_codec: "MPEG2".to_string(),
        audio_codec: "AC3".to_string(),
        url: url.to_string(),
        hd: None,
        favorite: Some(1),
    }
}

#[test]
fn new_shell_shows_nothing() {
    let shell = Shell::new();
    assert_eq!(shell.row_count(), 0);
    assert_eq!(shell.row(0), None);
    assert_eq!(shell.notice(), None);
    assert_eq!(shell.failure_reason(), None);
}

#[test]
fn lineup_is_shown_row_for_row() {
    let lineup = vec![channel("One", "u1"), channel("Two", "u2"), channel("Three", "u3")];
    let mut shell = Shell::new();
    assert!(shell.render(Ok(lineup.clone())));
    assert_eq!(shell.row_count(), 3);
    for (i, c) in lineup.iter().enumerate() {
        let row = shell.row(i).unwrap();
        assert_eq!(row.label, c.guide_name);
        assert_eq!(&row.channel, c);
    }
    assert_eq!(shell.row(3), None);
    assert_eq!(shell.row(usize::MAX), None);
    assert_eq!(shell.notice(), None);
}

#[test]
fn empty_lineup_is_an_empty_list() {
    let mut shell = Shell::new();
    assert!(shell.render(Ok(Vec::new())));
    assert_eq!(shell.row_count(), 0);
    assert_eq!(shell.notice(), None);
}

#[test]
fn failure_is_shown_as_a_notice() {
    let mut shell = Shell::new();
    assert!(shell.render(Err(FetchError::Transport { reason: "timed out".to_string() })));
    assert_eq!(shell.row_count(), 0);
    assert_eq!(shell.notice(), Some("bad request"));
    assert_eq!(
        shell.failure_reason(),
        Some(&FetchError::Transport { reason: "timed out".to_string() })
    );
    let mut shell = Shell::new();
    assert!(shell.render(Err(FetchError::Decode(DecodeError::NotAList))));
    assert_eq!(shell.notice(), Some("bad request"));
    let mut shell = Shell::new();
    assert!(shell.render(Err(FetchError::Status { code: 404 })));
    assert_eq!(shell.notice(), Some("bad request"));
}

#[test]
fn list_is_rendered_once() {
    let mut shell = Shell::new();
    assert!(shell.render(Ok(vec![channel("One", "u1")])));
    assert!(!shell.render(Ok(vec![channel("Two", "u2"), channel("Three", "u3")])));
    assert_eq!(shell.row_count(), 1);
    assert_eq!(shell.row(0).unwrap().label, "One");
    assert!(!shell.render(Err(FetchError::Status { code: 500 })));
    assert_eq!(shell.row_count(), 1);
    assert_eq!(shell.notice(), None);
}

#[test]
fn failure_is_rendered_once() {
    let mut shell = Shell::new();
    assert!(shell.render(Err(FetchError::Status { code: 500 })));
    assert!(!shell.render(Ok(vec![channel("One", "u1")])));
    assert_eq!(shell.row_count(), 0);
    assert_eq!(shell.notice(), Some("bad request"));
}

#[test]
fn click_plays_the_channel_of_the_row() {
    let mut shell = Shell::new();
    shell.render(Ok(vec![channel("One", "u1"), channel("Two", "u2")]));
    let mut controller: PlayerController<u32> = PlayerController::new();
    let request = shell.click(1, &mut controller).unwrap();
    assert_eq!(request, PlayRequest { terminate: None, url: "u2".to_string() });
    controller.finish_play(Some(10));
    let request = shell.click(0, &mut controller).unwrap();
    assert_eq!(request, PlayRequest { terminate: Some(10), url: "u1".to_string() });
    controller.finish_play(Some(11));
    assert_eq!(controller.current(), Some(&11));
}

#[test]
fn click_where_no_row_is_changes_nothing() {
    let mut shell = Shell::new();
    let mut controller: PlayerController<u32> = PlayerController::new();
    controller.finish_play(Some(4));
    assert_eq!(shell.click(0, &mut controller), None);
    shell.render(Ok(vec![channel("One", "u1")]));
    assert_eq!(shell.click(1, &mut controller), None);
    assert_eq!(shell.click(usize::MAX, &mut controller), None);
    assert_eq!(controller.current(), Some(&4));
}

#[test]
fn from_response_to_spawn() {
    let body = r#"[{"GuideNumber":"2.1","GuideName":"Test","VideoCodec":"MPEG2","AudioCodec":"AC3","URL":"http://stream/1","HD":1}]"#;
    let mut client = HdHomerunClient::new("http://127.0.0.1:8080/lineup.json".to_string()).unwrap();
    let mut coordinator = FetchCoordinator::new();
    let mut shell = Shell::new();
    let mut controller: PlayerController<u32> = PlayerController::new();
    let mut spawned: Vec<String> = Vec::new();
    let mut terminated: Vec<u32> = Vec::new();

    assert!(coordinator.start());
    let result =
        client.get_lineup(Transfer::Reply { status: 200, body: body.as_bytes().to_vec() });
    assert_eq!(shell.row_count(), 0);
    let handed = coordinator.deliver(result).unwrap();
    assert!(shell.render(handed));

    assert_eq!(shell.row_count(), 1);
    assert_eq!(shell.row(0).unwrap().label, "Test");

    let request = shell.click(0, &mut controller).unwrap();
    if let Some(handle) = request.terminate {
        terminated.push(handle);
    }
    spawned.push(request.url);
    assert_eq!(controller.finish_play(Some(1)), None);

    assert_eq!(spawned, vec!["http://stream/1"]);
    assert!(terminated.is_empty());
    assert_eq!(controller.current(), Some(&1));
}

#[test]
fn from_failed_fetch_to_notice() {
    let mut client = HdHomerunClient::new("http://127.0.0.1:8080/lineup.json".to_string()).unwrap();
    let mut coordinator = FetchCoordinator::new();
    let mut shell = Shell::new();
    assert!(coordinator.start());
    let result = client.get_lineup(Transfer::Reply { status: 200, body: b"{}".to_vec() });
    let handed = coordinator.deliver(result).unwrap();
    assert_eq!(handed, Err(FetchError::Decode(DecodeError::NotAList)));
    assert!(shell.render(handed));
    assert_eq!(shell.row_count(), 0);
    assert_eq!(shell.notice(), Some("bad request"));
}
