use plaza_term_rs::metadata::NowPlaying;
use plaza_term_rs::poller::{
    copy_record, fallback_urls, read_reply, Action, Poller, Reply, Stage, POLL_INTERVAL_SECS,
    PRIMARY_URL, REQUEST_TIMEOUT_SECS, USER_AGENT,
};

fn answer(body: &str) -> Reply {
    Reply::Answered { success: true, body: body.as_bytes().to_vec() }
}

fn refusal(body: &str) -> Reply {
    Reply::Answered { success: false, body: body.as_bytes().to_vec() }
}

fn titled(title: &str) -> NowPlaying {
    NowPlaying { artist: None, title: Some(title.to_string()), art_url: None }
}

fn fetched(action: Action) -> String {
    match action {
        Action::Fetch(url) => url,
        other => panic!("expected a request, got {:?}", other),
    }
}

fn published(action: Action) -> NowPlaying {
    match action {
        Action::Publish(record) => record,
        other => panic!("expected a record, got {:?}", other),
    }
}

#[test]
fn configuration_is_the_broadcasts_own() {
    assert_eq!(POLL_INTERVAL_SECS, 5);
    assert_eq!(REQUEST_TIMEOUT_SECS, 30);
    assert_eq!(USER_AGENT, "plaza_term_rs/0.2.0");
    assert_eq!(PRIMARY_URL, "https://api.plaza.one/radio/broadcast");
    assert_eq!(
        fallback_urls(),
        vec![
            "https://api.plaza.one/status".to_string(),
            "https://api.plaza.one/now_playing".to_string(),
            "http://radio.plaza.one/status-json.xsl".to_string()
        ]
    );
}

#[test]
fn poller_starts_idle_with_the_empty_record() {
    let poller = Poller::standard();
    assert_eq!(poller.stage(), Stage::Idle);
    assert_eq!(poller.latest(), &NowPlaying::default());
}

#[test]
fn tick_asks_the_primary_endpoint() {
    let mut poller = Poller::standard();
    assert_eq!(fetched(poller.on_tick()), "https://api.plaza.one/radio/broadcast");
    assert_eq!(poller.stage(), Stage::Primary);
}

#[test]
fn usable_primary_reply_is_published_and_ends_the_cycle() {
    let mut poller = Poller::standard();
    poller.on_tick();
    let record = published(poller.on_reply(answer(r#"{"now_playing": {"title": "T"}}"#)));
    assert_eq!(record, titled("T"));
    assert_eq!(poller.latest(), &titled("T"));
    assert_eq!(poller.stage(), Stage::Idle);
}

#[test]
fn fallbacks_are_asked_in_list_order() {
    let mut poller = Poller::standard();
    poller.on_tick();
    assert_eq!(fetched(poller.on_reply(Reply::Failed)), "https://api.plaza.one/status");
    assert_eq!(poller.stage(), Stage::Fallback(0));
    assert_eq!(
        fetched(poller.on_reply(refusal(r#"{"title": "refused"}"#))),
        "https://api.plaza.one/now_playing"
    );
    assert_eq!(poller.stage(), Stage::Fallback(1));
    assert_eq!(
        fetched(poller.on_reply(answer("not json"))),
        "http://radio.plaza.one/status-json.xsl"
    );
    assert_eq!(poller.stage(), Stage::Fallback(2));
    let record =
        published(poller.on_reply(answer(r#"{"icestats": {"source": {"title": "A - B"}}}"#)));
    assert_eq!(
        record,
        NowPlaying { artist: Some("A".to_string()), title: Some("B".to_string()), art_url: None }
    );
    assert_eq!(poller.stage(), Stage::Idle);
}

#[test]
fn first_usable_fallback_wins_and_the_rest_are_skipped() {
    let mut poller = Poller::standard();
    poller.on_tick();
    poller.on_reply(Reply::Failed);
    let record = published(poller.on_reply(answer(r#"{"title": "from status"}"#)));
    assert_eq!(record, titled("from status"));
    assert_eq!(poller.stage(), Stage::Idle);
    assert!(matches!(poller.on_reply(answer(r#"{"title": "late"}"#)), Action::Rest));
    assert_eq!(poller.latest(), &titled("from status"));
}

#[test]
fn cycle_without_result_keeps_the_previous_record() {
    let mut poller = Poller::standard();
    poller.on_tick();
    poller.on_reply(answer(r#"{"now_playing": {"title": "kept"}}"#));
    poller.on_tick();
    poller.on_reply(answer(r#"{"listeners": 3}"#));
    poller.on_reply(answer(r#"{"listeners": 3}"#));
    poller.on_reply(Reply::Failed);
    assert!(matches!(poller.on_reply(refusal("")), Action::Rest));
    assert_eq!(poller.stage(), Stage::Idle);
    assert_eq!(poller.latest(), &titled("kept"));
}

#[test]
fn fallback_documents_are_read_as_unknown_shapes() {
    let mut poller = Poller::standard();
    poller.on_tick();
    poller.on_reply(Reply::Failed);
    let action = poller.on_reply(answer(r#"{"current_song": {"title": "primary only"}}"#));
    assert_eq!(fetched(action), "https://api.plaza.one/now_playing");
}

#[test]
fn primary_document_is_read_by_the_priority_chain() {
    let mut poller = Poller::standard();
    poller.on_tick();
    let record = published(poller.on_reply(answer(r#"{"current_song": {"title": "chain"}}"#)));
    assert_eq!(record, titled("chain"));
}

#[test]
fn poller_without_fallbacks_rests_after_the_primary() {
    let mut poller = Poller::new("http://p".to_string(), Vec::new());
    assert_eq!(fetched(poller.on_tick()), "http://p");
    assert!(matches!(poller.on_reply(Reply::Failed), Action::Rest));
    assert_eq!(poller.stage(), Stage::Idle);
}

#[test]
fn tick_restarts_a_cycle_under_way() {
    let mut poller = Poller::new("http://p".to_string(), vec!["http://f".to_string()]);
    poller.on_tick();
    assert_eq!(fetched(poller.on_reply(Reply::Failed)), "http://f");
    assert_eq!(fetched(poller.on_tick()), "http://p");
    assert_eq!(poller.stage(), Stage::Primary);
}

#[test]
fn reply_between_cycles_is_ignored() {
    let mut poller = Poller::standard();
    assert!(matches!(poller.on_reply(answer(r#"{"title": "stray"}"#)), Action::Rest));
    assert_eq!(poller.latest(), &NowPlaying::default());
}

#[test]
fn only_successful_json_replies_are_read() {
    assert_eq!(read_reply(true, &Reply::Failed), None);
    assert_eq!(read_reply(true, &refusal(r#"{"title": "T"}"#)), None);
    assert_eq!(read_reply(true, &answer(r#"{"title": "T""#)), None);
    assert_eq!(read_reply(true, &answer(r#"{"title": "T"}"#)), Some(titled("T")));
    assert_eq!(read_reply(false, &answer(r#"{"title": "T"}"#)), Some(titled("T")));
    assert_eq!(read_reply(false, &answer(r#"{"broadcast": {"now_playing": {"title": "T"}}}"#)), None);
    assert_eq!(
        read_reply(true, &answer(r#"{"broadcast": {"now_playing": {"title": "T"}}}"#)),
        Some(titled("T"))
    );
}

#[test]
fn copy_of_a_record_equals_it() {
    let record = NowPlaying {
        artist: Some("A".to_string()),
        title: None,
        art_url: Some("https://x/y".to_string()),
    };
    assert_eq!(copy_record(&record), record);
}
