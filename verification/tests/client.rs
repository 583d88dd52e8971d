use sunk::query::Query;
use sunk::SearchPage;
use sunk::{Client, Error, SubsonicAuth, UrlError, Version};

#[test]
fn test_token_auth() {
    let cli = Client::new("http://demo.subsonic.org", "guest3", "guest").unwrap();
    let token_addr = cli.build_url("ping", Query::none()).unwrap();
    let legacy_cli = cli.with_target(Version::from("1.8.0"));
    let legacy_addr = legacy_cli.build_url("ping", Query::none()).unwrap();

    assert!(token_addr != legacy_addr);
    assert_eq!(
        legacy_addr,
        "http://demo.subsonic.org/rest/ping?u=guest3&p=guest&v=1.8.0&c=sunk&f=json&"
    );
}

#[test]
fn legacy_fragment_is_plaintext_and_deterministic() {
    let auth = SubsonicAuth::new("alice", "hunter2");
    let old = Version(1, 12, 9);
    let one = auth.to_url(old);
    let two = auth.to_url(old);
    assert_eq!(one, "u=alice&p=hunter2&v=1.12.9&c=sunk&f=json");
    assert_eq!(one, two);
    assert!(!one.contains("&t="));
    assert!(!one.contains("&s="));
}

fn field<'a>(fragment: &'a str, key: &str) -> &'a str {
    let start = fragment.find(key).expect("key present") + key.len();
    let rest = &fragment[start..];
    match rest.find('&') {
        Some(end) => &rest[..end],
        None => rest,
    }
}

#[test]
fn token_fragment_shape() {
    let auth = SubsonicAuth::new("alice", "hunter2");
    let fragment = auth.to_url(Version(1, 13, 0));
    assert!(fragment.starts_with("u=alice&t="));
    assert!(fragment.ends_with("&v=1.13.0&c=sunk&f=json"));
    assert!(!fragment.contains("&p="));

    let token = field(&fragment, "&t=");
    assert_eq!(token.len(), 32);
    assert!(token.chars().all(|c| c.is_ascii_hexdigit() && !c.is_ascii_uppercase()));

    let salt = field(&fragment, "&s=");
    assert_eq!(salt.len(), 36);
    assert!(salt.chars().all(|c| c.is_ascii_alphanumeric()));
}

#[test]
fn tokens_are_fresh_per_call() {
    let auth = SubsonicAuth::new("alice", "hunter2");
    let v = Version(1, 14, 0);
    let one = auth.to_url(v);
    let two = auth.to_url(v);
    assert_ne!(field(&one, "&t="), field(&two, "&t="));
    assert_ne!(field(&one, "&s="), field(&two, "&s="));
}

#[test]
fn token_matches_reference_digest() {
    // The reference digest of the password and salt, computed with the
    // same crate the client uses.
    let auth = SubsonicAuth::new("alice", "hunter2");
    let fragment = auth.to_url(Version(1, 13, 0));
    let token = field(&fragment, "&t=");
    let salt = field(&fragment, "&s=");
    let expected = format!("{:x}", md5::compute(format!("hunter2{}", salt).as_bytes()));
    assert_eq!(token, expected);
}

#[test]
fn base_address_with_port_and_path() {
    let cli = Client::new("https://music.example.net:8443/sub/", "u", "p").unwrap();
    let url = cli.build_url("ping", Query::none()).unwrap();
    assert!(url.starts_with("https://music.example.net:8443/sub/rest/ping?u=u&t="));
}

#[test]
fn base_address_without_scheme_is_refused() {
    match Client::new("demo.subsonic.org", "u", "p") {
        Err(Error::Url(UrlError::ParsingError)) => {}
        other => panic!("expected a parsing error, got {:?}", other),
    }
}

#[test]
fn base_address_without_host_is_refused() {
    match Client::new("data:text/plain,hello", "u", "p") {
        Err(Error::Url(UrlError::Address)) => {}
        other => panic!("expected a missing-address error, got {:?}", other),
    }
}

#[test]
fn search_args_order() {
    let a = SearchPage::new().with_size(1);
    let q = Client::search_args("dada", a, a, a);
    assert_eq!(
        q.to_string(),
        "query=dada&artistCount=1&artistOffset=0&albumCount=1&albumOffset=0&songCount=1&songOffset=0"
    );
}

#[test]
fn lyrics_args_skip_absent_fields() {
    let q = Client::lyrics_args(None, Some("title"));
    assert_eq!(q.to_string(), "title=title");
    let q = Client::lyrics_args(Some("band"), None);
    assert_eq!(q.to_string(), "artist=band");
}

#[test]
fn starred_args_folder() {
    assert_eq!(Client::starred_args(Some(4)).to_string(), "musicFolderId=4");
    assert_eq!(Client::starred_args(None).to_string(), "");
}

#[test]
fn trailing_slashes_do_not_double_the_mount_point() {
    let cli = Client::new("http://host.example///", "u", "p").unwrap();
    let url = cli.build_url("ping", Query::none()).unwrap();
    assert!(url.starts_with("http://host.example/rest/ping?"));
}

#[test]
fn stream_and_download_urls_carry_the_credential_fragment() {
    let cli = Client::new("http://host.example", "u", "p").unwrap();
    let mut song = sunk::Song {
        id: "222".to_string(),
        title: "t".to_string(),
        album: None,
        album_id: None,
        artist: None,
        artist_id: None,
        track: None,
        year: None,
        genre: None,
        cover_id: None,
        size: 0,
        content_type: "audio/flac".to_string(),
        suffix: "flac".to_string(),
        transcoded_content_type: None,
        transcoded_suffix: None,
        duration: None,
        path: "p".to_string(),
        media_type: "music".to_string(),
        stream_br: None,
        stream_tc: None,
    };
    song.set_max_bit_rate(128);
    let url = song.stream_url(&cli).unwrap();
    assert!(url.starts_with("http://host.example/rest/stream?u=u&t="));
    assert!(url.ends_with("&id=222&maxBitRate=128"));
}
