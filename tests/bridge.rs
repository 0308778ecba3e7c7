use std::sync::mpsc::{channel, TryRecvError};

use newsapi::bridge::{deliver, deliver_fetched, delivery_records, CardSender};
use newsapi::{Article, NewsApiError, NewsApiResponse, NewsCardData, Readlines, ReadlinesConfig};

fn article(title: &str, url: &str, desc: Option<&str>) -> Article {
    Article::new(title.to_string(), url.to_string(), desc.map(|d| d.to_string()))
}

fn card(title: &str, url: &str, desc: &str) -> NewsCardData {
    NewsCardData { title: title.to_string(), url: url.to_string(), desc: desc.to_string() }
}

fn str_field(v: &serde_json::Value, key: &str) -> Option<String> {
    v.get(key).and_then(|f| f.as_str()).map(|s| s.to_string())
}

/// Decodes a response body the way the transport layer does.
fn decode(body: &str) -> NewsApiResponse {
    let v: serde_json::Value = serde_json::from_str(body).unwrap();
    let articles = v
        .get("articles")
        .and_then(|a| a.as_array())
        .map(|items| {
            items
                .iter()
                .map(|a| {
                    Article::new(
                        str_field(a, "title").unwrap(),
                        str_field(a, "url").unwrap(),
                        str_field(a, "description"),
                    )
                })
                .collect()
        })
        .unwrap_or_default();
    NewsApiResponse::new(str_field(&v, "status").unwrap(), str_field(&v, "code"), articles)
}

fn started_app() -> (Readlines, CardSender) {
    let (tx, rx) = channel();
    let mut app = Readlines::new(ReadlinesConfig { dark_mode: false, api_key: "k".to_string() });
    app.news_rx = Some(rx);
    (app, CardSender::new(tx))
}

#[test]
fn missing_description_becomes_ellipsis() {
    let rec = NewsCardData::from_article(&article("T", "https://x/t", None));
    assert_eq!(rec, card("T", "https://x/t", "..."));
}

#[test]
fn present_description_is_kept() {
    let rec = NewsCardData::from_article(&article("T", "https://x/t", Some("d")));
    assert_eq!(rec, card("T", "https://x/t", "d"));
}

#[test]
fn records_follow_response_order() {
    let resp = NewsApiResponse::new(
        "ok".to_string(),
        None,
        vec![article("A", "u/a", None), article("B", "u/b", Some("b")), article("C", "u/c", None)],
    );
    let recs = delivery_records(&resp);
    assert_eq!(recs, vec![card("A", "u/a", "..."), card("B", "u/b", "b"), card("C", "u/c", "...")]);
}

#[test]
fn polling_delivers_in_order_then_nothing() {
    let resp = NewsApiResponse::new(
        "ok".to_string(),
        None,
        vec![article("A", "u/a", None), article("B", "u/b", None), article("C", "u/c", None)],
    );
    let (mut app, mut tx) = started_app();
    assert_eq!(deliver(&mut tx, &resp), 3);
    drop(tx);
    app.preload_articles();
    assert_eq!(app.articles, vec![card("A", "u/a", "...")]);
    app.preload_articles();
    app.preload_articles();
    let titles: Vec<&str> = app.articles.iter().map(|c| c.title.as_str()).collect();
    assert_eq!(titles, vec!["A", "B", "C"]);
    app.preload_articles();
    app.preload_articles();
    assert_eq!(app.articles.len(), 3);
}

#[test]
fn polling_an_empty_channel_changes_nothing() {
    let (mut app, _tx) = started_app();
    app.preload_articles();
    assert!(app.articles.is_empty());
}

#[test]
fn polling_without_channel_changes_nothing() {
    let mut app = Readlines::new(ReadlinesConfig::default());
    app.preload_articles();
    assert!(app.articles.is_empty());
    assert!(app.news_rx.is_none());
}

#[test]
fn accept_polled_appends_only_records() {
    let mut app = Readlines::new(ReadlinesConfig::default());
    app.accept_polled(None);
    assert!(app.articles.is_empty());
    app.accept_polled(Some(card("A", "u/a", "d")));
    app.accept_polled(Some(card("B", "u/b", "e")));
    assert_eq!(app.articles, vec![card("A", "u/a", "d"), card("B", "u/b", "e")]);
}

#[test]
fn deliver_to_a_closed_channel_sends_nothing() {
    let (tx, rx) = channel::<NewsCardData>();
    drop(rx);
    let mut tx = CardSender::new(tx);
    let resp = NewsApiResponse::new("ok".to_string(), None, vec![article("A", "u/a", None)]);
    assert_eq!(deliver(&mut tx, &resp), 0);
}

#[test]
fn config_default_and_key_flag() {
    let cfg = ReadlinesConfig::default();
    assert!(!cfg.dark_mode);
    assert!(cfg.api_key.is_empty());
    let app = Readlines::new(cfg);
    assert!(!app.api_key_initialized);
    let app = Readlines::new(ReadlinesConfig { dark_mode: true, api_key: "abc".to_string() });
    assert!(app.api_key_initialized);
    assert!(app.config.dark_mode);
    assert!(app.news_rx.is_none());
}

#[test]
fn ok_response_end_to_end() {
    let body = r#"{"status":"ok","articles":[{"title":"T1","url":"https://x/1"},{"title":"T2","url":"https://x/2","description":"d2"}]}"#;
    let resp = decode(body).classify().unwrap();
    assert_eq!(resp.articles().len(), 2);
    assert_eq!(resp.articles()[0].desc(), None);
    assert_eq!(resp.articles()[1].desc(), Some("d2"));
    let (mut app, mut tx) = started_app();
    deliver(&mut tx, &resp);
    drop(tx);
    for _ in 0..4 {
        app.preload_articles();
    }
    assert_eq!(app.articles, vec![card("T1", "https://x/1", "..."), card("T2", "https://x/2", "d2")]);
}

#[test]
fn disabled_key_response_end_to_end() {
    let body = r#"{"status":"error","code":"apiKeyDisabled"}"#;
    let (mut app, mut tx) = started_app();
    let fetched = decode(body).classify();
    match &fetched {
        Err(NewsApiError::BadRequest(m)) => assert_eq!(*m, "Your API key has been disabled"),
        other => panic!("unexpected {:?}", other),
    }
    assert_eq!(deliver_fetched(&mut tx, &fetched), 0);
    drop(tx);
    app.preload_articles();
    app.preload_articles();
    assert!(app.articles.is_empty());
    assert!(matches!(app.news_rx.as_ref().unwrap().try_recv(), Err(TryRecvError::Disconnected)));
}

#[test]
fn failed_fetch_delivers_nothing() {
    let mut app = Readlines::new(ReadlinesConfig::default());
    let mut tx = app.start_delivery();
    let fetched: Result<NewsApiResponse, NewsApiError> = Err(NewsApiError::UnknownError);
    assert_eq!(deliver_fetched(&mut tx, &fetched), 0);
    drop(tx);
    app.preload_articles();
    assert!(app.articles.is_empty());
    assert!(matches!(app.news_rx.as_ref().unwrap().try_recv(), Err(TryRecvError::Disconnected)));
}

#[test]
fn successful_fetch_delivers_every_record() {
    let mut app = Readlines::new(ReadlinesConfig::default());
    assert!(app.news_rx.is_none());
    let mut tx = app.start_delivery();
    assert!(app.news_rx.is_some());
    let fetched: Result<NewsApiResponse, NewsApiError> = Ok(NewsApiResponse::new(
        "ok".to_string(),
        None,
        vec![article("A", "u/a", None), article("B", "u/b", Some("b"))],
    ));
    assert_eq!(deliver_fetched(&mut tx, &fetched), 2);
    app.preload_articles();
    app.preload_articles();
    app.preload_articles();
    assert_eq!(app.articles, vec![card("A", "u/a", "..."), card("B", "u/b", "b")]);
}
