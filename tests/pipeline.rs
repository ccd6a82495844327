use songmatch::backend::{BackendReply, Envelope, MetadataEntry, Provider, Section, Track};
use songmatch::classify::Strategy;
use songmatch::compose::{Delivery, DeliveryMode, FAILURE_COLOR, NO_MATCH_COLOR};
use songmatch::extract::{extract_reference, Attachment, Embed, InboundMessage, SourceKind};
use songmatch::pipeline::{accepts_channel_message, finish, plan_request, respond};

fn message(content: &str, attachments: Vec<Attachment>, embeds: Vec<Embed>) -> InboundMessage {
    InboundMessage { content: content.to_string(), attachments, embeds }
}

fn attachment(url: &str, content_type: Option<&str>) -> Attachment {
    Attachment { url: url.to_string(), content_type: content_type.map(|t| t.to_string()) }
}

fn embed(url: Option<&str>) -> Embed {
    Embed { url: url.map(|u| u.to_string()) }
}

fn plain_track(url: &str) -> Track {
    Track {
        title: "Song".to_string(),
        subtitle: "Artist".to_string(),
        url: url.to_string(),
        coverart: "https://img/cover.jpg".to_string(),
        sections: Vec::new(),
        providers: Vec::new(),
        options: Vec::new(),
    }
}

fn answered(success: bool, timestamp: Option<u64>, track: Option<Track>) -> BackendReply {
    BackendReply::Answered { success, envelope: Some(Envelope { timestamp, track }) }
}

#[test]
fn empty_message_is_suppressed() {
    let m = message("", Vec::new(), Vec::new());
    assert!(plan_request(&m, DeliveryMode::Channel).is_none());
    assert!(plan_request(&m, DeliveryMode::Interactive).is_none());
}

#[test]
fn attachment_wins_over_embed() {
    let m = message(
        "https://host/other.mp3",
        vec![attachment("https://cdn/file.bin", Some("audio/mpeg"))],
        vec![embed(Some("https://host/track.mp3"))],
    );
    let q = plan_request(&m, DeliveryMode::Channel).unwrap();
    assert_eq!(q.reference.source, SourceKind::Attachment);
    assert_eq!(q.reference.strategy, Strategy::DirectDownload);
    assert_eq!(q.reference.url, "https://cdn/file.bin");
    assert_eq!(q.reference.declared_type, Some("audio/mpeg".to_string()));
    assert_eq!(q.path, "/direct?url=https%3A%2F%2Fcdn%2Ffile.bin");
    assert!(q.show_typing);
}

#[test]
fn untyped_and_non_media_attachments_are_skipped() {
    let m = message(
        "",
        vec![
            attachment("https://cdn/a", None),
            attachment("https://cdn/b.png", Some("image/png")),
            attachment("https://cdn/c.mp4", Some("video/mp4")),
        ],
        Vec::new(),
    );
    let r = extract_reference(&m).unwrap();
    assert_eq!(r.url, "https://cdn/c.mp4");
    assert_eq!(r.source, SourceKind::Attachment);
}

#[test]
fn embeds_need_media_or_platform_link() {
    let m = message(
        "",
        vec![attachment("https://cdn/a.png", Some("image/png"))],
        vec![embed(None), embed(Some("https://example.com/page")), embed(Some("https://vxtwitter.com/u/status/777"))],
    );
    let q = plan_request(&m, DeliveryMode::Interactive).unwrap();
    assert_eq!(q.reference.source, SourceKind::EmbedUrl);
    assert_eq!(q.reference.strategy, Strategy::PlatformExtractor);
    assert_eq!(q.path, "/twitter/777");
    assert!(!q.show_typing);
}

#[test]
fn embed_without_match_falls_to_text() {
    let m = message("see https://host/clip.webm", Vec::new(), vec![embed(Some("https://example.com/page"))]);
    let q = plan_request(&m, DeliveryMode::Channel).unwrap();
    assert_eq!(q.reference.source, SourceKind::InlineUrl);
    assert_eq!(q.reference.strategy, Strategy::DirectDownload);
    assert_eq!(q.path, "/direct?url=https%3A%2F%2Fhost%2Fclip.webm");
}

#[test]
fn text_platform_link_scenario() {
    let m = message("check this out https://px.twitter.com/someuser/status/12345", Vec::new(), Vec::new());
    let q = plan_request(&m, DeliveryMode::Channel).unwrap();
    assert_eq!(q.reference.source, SourceKind::InlineUrl);
    assert_eq!(q.reference.strategy, Strategy::PlatformExtractor);
    assert_eq!(q.reference.url, "https://px.twitter.com/someuser/status/12345");
    assert_eq!(q.path, "/twitter/12345");
}

#[test]
fn first_text_link_wins_with_generic_fallback() {
    let m = message(
        "a https://video.example.com/watch?v=x y then https://host/track.mp3",
        Vec::new(),
        Vec::new(),
    );
    let q = plan_request(&m, DeliveryMode::Channel).unwrap();
    assert_eq!(q.reference.strategy, Strategy::GenericExtractor);
    assert_eq!(q.reference.url, "https://video.example.com/watch?v=x");
    assert_eq!(q.path, "/ytdl?url=https%3A%2F%2Fvideo.example.com%2Fwatch%3Fv%3Dx");
}

#[test]
fn text_without_links_is_suppressed() {
    let m = message("just words here", Vec::new(), Vec::new());
    assert!(plan_request(&m, DeliveryMode::Channel).is_none());
}

#[test]
fn timestamp_without_track_is_no_match() {
    let r = finish(answered(true, Some(100), None), 0, DeliveryMode::Channel);
    assert_eq!(r.card.title, "No matches found");
    assert_eq!(r.card.description, "We searched your media for a matching song, and couldn't find anything.");
    assert_eq!(r.card.color, NO_MATCH_COLOR);
    assert_eq!(r.card.color, 0xE67E22);
    assert!(r.content.is_none());
    assert!(r.buttons.is_empty());
    assert_eq!(r.delivery, Delivery::ThreadedReply);
}

#[test]
fn transport_failure_is_failure_notice() {
    let r = finish(BackendReply::Unreachable, 0, DeliveryMode::Interactive);
    assert_eq!(r.card.title, "Failed to process media");
    assert_eq!(r.card.color, FAILURE_COLOR);
    assert_eq!(r.card.color, 0xE74C3C);
    assert_eq!(r.delivery, Delivery::EphemeralFollowUp);
    assert!(r.card.fields.is_empty());
}

#[test]
fn other_backend_answers() {
    let malformed = BackendReply::Answered { success: true, envelope: None };
    assert_eq!(finish(malformed, 0, DeliveryMode::Channel).card.title, "Failed to process media");
    assert_eq!(finish(answered(true, None, None), 0, DeliveryMode::Channel).card.title, "Failed to process media");
    assert_eq!(finish(answered(false, Some(5), None), 0, DeliveryMode::Channel).card.title, "No matches found");
    assert_eq!(
        finish(answered(false, Some(5), Some(plain_track("u"))), 0, DeliveryMode::Channel).card.title,
        "Failed to process media"
    );
    assert_eq!(finish(answered(true, None, Some(plain_track("u"))), 0, DeliveryMode::Channel).card.title, "Song");
}

#[test]
fn empty_track_link_is_left_out() {
    let r = finish(answered(true, Some(1), Some(plain_track(""))), 2, DeliveryMode::Channel);
    assert!(r.card.url.is_none());
    assert_eq!(r.card.title, "Song");
    assert_eq!(r.card.description, "Artist");
    assert_eq!(r.content, Some("I hope this helps.".to_string()));
    let r2 = finish(answered(true, Some(1), Some(plain_track("https://shz/t/1"))), 0, DeliveryMode::Channel);
    assert_eq!(r2.card.url, Some("https://shz/t/1".to_string()));
    assert_eq!(r2.card.thumbnail, Some("https://img/cover.jpg".to_string()));
    assert_eq!(r2.card.color, 0x3498DB);
    assert_eq!(r2.card.footer.as_ref().unwrap().text, "Shazam");
}

#[test]
fn random_lead_in_is_from_pool() {
    let pool = [
        "I found it!",
        "This might be the song you're looking for.",
        "I hope this helps.",
        "Hey, I love this song too.",
        "I like your taste.",
        "I was wondering about this song too.",
    ];
    for _ in 0..20 {
        let r = respond(answered(true, None, Some(plain_track("x"))), DeliveryMode::Interactive);
        let c = r.content.unwrap();
        assert!(pool.contains(&c.as_str()));
        assert_eq!(r.delivery, Delivery::EphemeralFollowUp);
    }
}

#[test]
fn metadata_and_providers_in_reply() {
    let mut t = plain_track("x");
    t.sections = vec![
        Section {
            metadata: Some(vec![
                MetadataEntry { title: "Album".to_string(), text: "A".to_string() },
                MetadataEntry { title: "Label".to_string(), text: "L".to_string() },
            ]),
        },
        Section { metadata: None },
        Section { metadata: Some(vec![MetadataEntry { title: "Released".to_string(), text: "2020".to_string() }]) },
    ];
    t.providers = vec![Provider {
        provider_type: "SPOTIFY".to_string(),
        provider_name: None,
        action_uris: vec!["spotify:search:foo bar".to_string()],
    }];
    let r = finish(answered(true, None, Some(t)), 1, DeliveryMode::Channel);
    let titles: Vec<&str> = r.card.fields.iter().map(|f| f.title.as_str()).collect();
    assert_eq!(titles, vec!["Album", "Label", "Released"]);
    assert!(r.card.fields.iter().all(|f| f.inline));
    assert_eq!(r.card.fields[2].text, "2020");
    assert_eq!(r.buttons.len(), 2);
    assert_eq!(r.buttons[0].url, "https://open.spotify.com/search/foo%20bar");
    assert_eq!(r.buttons[1].label, "YouTube Music");
}

#[test]
fn channel_message_filter() {
    let empty = message("", Vec::new(), vec![embed(Some("https://host/track.mp3"))]);
    assert!(!accepts_channel_message(&empty, false));
    let text = message("hi", Vec::new(), Vec::new());
    assert!(accepts_channel_message(&text, false));
    assert!(!accepts_channel_message(&text, true));
    let file = message("", vec![attachment("https://cdn/a.mp3", Some("audio/mpeg"))], Vec::new());
    assert!(accepts_channel_message(&file, false));
}

#[test]
fn platform_link_with_query_sends_only_the_id() {
    let m = message("https://twitter.com/someuser/status/42?s=20", Vec::new(), Vec::new());
    let q = plan_request(&m, DeliveryMode::Channel).unwrap();
    assert_eq!(q.reference.strategy, Strategy::PlatformExtractor);
    assert_eq!(q.path, "/twitter/42");
    let e = message("", Vec::new(), vec![embed(Some("https://fxtwitter.com/u/status/99/photo/1"))]);
    assert_eq!(plan_request(&e, DeliveryMode::Channel).unwrap().path, "/twitter/99");
}

#[test]
fn link_to_post_behind_other_host_is_generic() {
    let m = message("https://example.com/?u=https://twitter.com/a/status/1", Vec::new(), Vec::new());
    let q = plan_request(&m, DeliveryMode::Channel).unwrap();
    assert_eq!(q.reference.strategy, Strategy::GenericExtractor);
    assert!(q.path.starts_with("/ytdl?url=https%3A%2F%2Fexample.com"));
}
