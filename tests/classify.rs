use songmatch::classify::{classify_url, is_direct_media, is_media_top_level, Strategy};
use songmatch::grammar::{first_link, matches_twitter_link, post_id, strip_query};
use songmatch::text::{contains, equals, starts_with};

#[test]
fn direct_media_by_extension() {
    assert!(is_direct_media("https://host/track.mp3"));
    assert!(!is_direct_media("https://host/page"));
}

#[test]
fn direct_media_video_and_case() {
    assert!(is_direct_media("https://cdn.example.com/clip.MP4"));
    assert!(is_direct_media("https://cdn.example.com/a/b/sound.ogg"));
    assert!(!is_direct_media("https://cdn.example.com/picture.png"));
    assert!(!is_direct_media("https://cdn.example.com/notes.txt"));
}

#[test]
fn short_link_with_mirror_subdomain() {
    assert!(matches_twitter_link("https://px.twitter.com/someuser/status/12345"));
    assert!(!matches_twitter_link("https://px.twitter.com/someuser/status/abcde"));
    assert!(matches_twitter_link("https://fxtwitter.com/someuser/status/12345"));
    assert!(!matches_twitter_link("https://fxtwitter.com/someuser/status/abcde"));
}

#[test]
fn short_link_variants() {
    assert!(matches_twitter_link("https://px.twitter.com/someuser/status/12345"));
    assert!(matches_twitter_link("https://fx.twitter.com/someuser/status/12345"));
    assert!(matches_twitter_link("http://vxtwitter.com/a_b/statuses/1"));
    assert!(matches_twitter_link("HTTPS://TWITTER.COM/User/status/99"));
    assert!(matches_twitter_link("https://twxtter.com/u/status/7"));
    assert!(matches_twitter_link("https://twittpr.com/u/status/7"));
    assert!(matches_twitter_link("https://twitter64.com/u/status/7"));
    assert!(!matches_twitter_link("https://example.com/u/status/7"));
    assert!(!matches_twitter_link("https://twitter.com/abcdefghijklmnopq/status/7"));
}

#[test]
fn classify_order() {
    assert_eq!(classify_url("https://host/track.mp3"), Strategy::DirectDownload);
    assert_eq!(classify_url("https://vxtwitter.com/u/status/42"), Strategy::PlatformExtractor);
    assert_eq!(classify_url("https://video.example.com/watch?v=abc"), Strategy::GenericExtractor);
}

#[test]
fn text_helpers() {
    assert!(starts_with("spotify:search:x", "spotify:search:"));
    assert!(!starts_with("spot", "spotify"));
    assert!(contains("audio/mpeg", "audio"));
    assert!(contains("video/mp4", "video"));
    assert!(!contains("image/png", "audio"));
    assert!(contains("anything", ""));
    assert!(equals("abc", "abc"));
    assert!(!equals("abc", "abd"));
    assert!(!equals("abc", "ab"));
}

#[test]
fn direct_media_ignores_query_and_case() {
    assert!(is_direct_media("https://host/track.mp3?ex=1"));
    assert!(is_direct_media("https://host/track.mp3#t=10"));
    assert!(is_direct_media("https://host/CLIP.MP4"));
    assert!(!is_direct_media("https://host/page?file=track.mp3"));
    assert!(is_direct_media("HTTPS://HOST/SONG.WAV?X=1"));
}

#[test]
fn media_top_level_values() {
    assert!(is_media_top_level(Some("audio")));
    assert!(is_media_top_level(Some("video")));
    assert!(!is_media_top_level(Some("image")));
    assert!(!is_media_top_level(Some("audiox")));
    assert!(!is_media_top_level(None));
}

#[test]
fn short_link_grammar_edges() {
    assert!(matches_twitter_link("https://twitter.com/someuser/status/42?s=20"));
    assert!(!matches_twitter_link("see https://twitter.com/someuser/status/42"));
    assert!(!matches_twitter_link("https://example.com/https://twitter.com/a/status/1"));
    assert!(!matches_twitter_link("https://example.com/?u=https://twitter.com/a/status/1"));
    assert!(matches_twitter_link("https://twitter.com/abcdefghijklmno/status/7"));
    assert!(!matches_twitter_link("https://twitter.com/abcdefghijklmnop/status/7"));
    assert!(!matches_twitter_link("https://twitter.com//status/7"));
    assert!(!matches_twitter_link("https://twitter.com/u/status/"));
    assert!(!matches_twitter_link("ftp://twitter.com/u/status/7"));
    assert!(!matches_twitter_link("https://www.twitter.com/u/status/7"));
}

#[test]
fn post_id_reads_digits_of_path() {
    assert_eq!(post_id("https://twitter.com/someuser/status/42?s=20"), "42");
    assert_eq!(post_id("https://twitter.com/someuser/status/42/photo/1"), "42");
    assert_eq!(post_id("https://vxtwitter.com/a/statuses/123#frag"), "123");
    assert_eq!(post_id("https://twitter.com/a/status/abc"), "");
    assert_eq!(post_id("https://x.example/?next=/status/9"), "");
}

#[test]
fn strip_query_values() {
    assert_eq!(strip_query("https://h/p.mp3?x=1#y"), "https://h/p.mp3");
    assert_eq!(strip_query("https://h/p#y?x"), "https://h/p");
    assert_eq!(strip_query("https://h/p"), "https://h/p");
}

#[test]
fn first_link_is_leftmost() {
    assert_eq!(first_link("a https://x.y/z b http://c.d"), Some("https://x.y/z".to_string()));
    assert_eq!(first_link("HTTP://UP.CASE/x\tmore"), Some("HTTP://UP.CASE/x".to_string()));
    assert_eq!(first_link("tab\thttp://a.b/c\nnext"), Some("http://a.b/c".to_string()));
    assert_eq!(first_link("https:// nothing then http://ok.x"), Some("http://ok.x".to_string()));
    assert_eq!(first_link("xhttps://glued.example/p"), Some("https://glued.example/p".to_string()));
    assert_eq!(first_link("no links here"), None);
    assert_eq!(first_link(""), None);
}
