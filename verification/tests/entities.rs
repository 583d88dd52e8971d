use sunk::query::Query;
use sunk::search::{self, SearchPage};
use sunk::{Album, Artist, AudioFormat, Id, ListType, NowPlaying, RadioStation, Song, User, Video, VideoFormat};

fn sample_song() -> Song {
    Song {
        id: "222".to_string(),
        title: "That Is How I Roll!".to_string(),
        album: Some("Afterglow".to_string()),
        album_id: Some("23".to_string()),
        artist: Some("Afterglow".to_string()),
        artist_id: Some("14".to_string()),
        track: Some(1),
        year: Some(2017),
        genre: Some("J-Pop".to_string()),
        cover_id: Some("1632".to_string()),
        size: 32345658,
        content_type: "audio/flac".to_string(),
        suffix: "flac".to_string(),
        transcoded_content_type: Some("audio/mpeg".to_string()),
        transcoded_suffix: Some("mp3".to_string()),
        duration: Some(240),
        path: "A/Afterglow/01.flac".to_string(),
        media_type: "music".to_string(),
        stream_br: None,
        stream_tc: None,
    }
}

#[test]
fn search_page_advance_moves_offset_only() {
    let mut page = SearchPage::new();
    assert_eq!((page.count, page.offset), (20, 0));
    page.next();
    assert_eq!((page.count, page.offset), (20, 1));
    page.prev();
    assert_eq!((page.count, page.offset), (20, 0));
}

#[test]
fn search_page_shapes() {
    assert_eq!(SearchPage::at_page(3).offset, 3);
    assert_eq!(SearchPage::at_page(3).count, 20);
    let sized = SearchPage::new().with_size(50);
    assert_eq!((sized.count, sized.offset), (50, 0));
    assert_eq!((search::all().count, search::all().offset), (500, 0));
    assert_eq!((search::none().count, search::none().offset), (0, 0));
}

#[test]
fn song_display_and_encoding() {
    let mut song = sample_song();
    assert_eq!(
        song.display_string(),
        "Afterglow - Afterglow [2017] - That Is How I Roll!"
    );
    assert_eq!(song.encoding(), "audio/mpeg");
    song.transcoded_content_type = None;
    assert_eq!(song.encoding(), "audio/flac");
    song.artist = None;
    song.album = None;
    song.year = None;
    assert_eq!(
        song.display_string(),
        "Unknown Artist - Unknown Album - That Is How I Roll!"
    );
}

#[test]
fn song_stream_options() {
    let mut song = sample_song();
    song.set_max_bit_rate(320);
    assert_eq!(song.stream_br, Some(320));
    song.set_transcoding("ogg");
    assert_eq!(song.stream_tc.as_deref(), Some("ogg"));
    assert_eq!(
        song.similar_args(Some(10)).to_string(),
        "id=222&count=10"
    );
    assert_eq!(Song::random_args(None).to_string(), "size=10");
    assert_eq!(Song::random_args(Some(3)).to_string(), "size=3");
    assert_eq!(
        Song::in_genre_args("J-Pop", SearchPage::new(), Some(2)).to_string(),
        "genre=J-Pop&count=20&offset=0&musicFolderId=2"
    );
}

#[test]
fn album_listing_arguments() {
    assert_eq!(ListType::default().as_str(), "alphabeticalByArtist");
    assert_eq!(ListType::Newest.as_str(), "newest");
    let q = Album::list_args(ListType::Newest, SearchPage::new(), None);
    assert_eq!(q.to_string(), "type=newest&size=20&offset=0");
    let q = Album::list_args(ListType::Random, SearchPage::at_page(2), Some(1));
    assert_eq!(q.to_string(), "type=random&size=20&offset=2&musicFolderId=1");
}

#[test]
fn annotation_arguments() {
    let artist = Artist {
        id: 14,
        name: "The Dada Weatherman".to_string(),
        cover_id: Some("ar-14".to_string()),
        albums: Vec::new(),
        album_count: 4,
    };
    assert_eq!(artist.star_args().to_string(), "artistId=14");
    assert_eq!(
        sunk::annotate::rating_args("222", 5).unwrap().to_string(),
        "id=222&rating=5"
    );
    assert!(sunk::annotate::rating_args("222", 6).is_err());
    assert_eq!(
        sunk::annotate::scrobble_args("222", None, Some(true)).to_string(),
        "id=222&submission=false"
    );
    assert_eq!(
        sunk::annotate::scrobble_args("222", Some("2018-01-01T10:30:04"), Some(false)).to_string(),
        "id=222&time=2018-01-01T10:30:04&submission=true"
    );
    assert_eq!(
        sunk::annotate::scrobble_args("222", None, None).to_string(),
        "id=222"
    );
}

#[test]
fn now_playing_kind() {
    let playing = NowPlaying {
        user: "guest".to_string(),
        minutes_ago: 2,
        player_id: 1,
        id: 9,
        is_video: false,
    };
    assert!(playing.is_song());
    assert!(!playing.is_video());
}

#[test]
fn video_stream_options() {
    let mut video = Video {
        id: "460".to_string(),
        parent: 26,
        is_dir: false,
        title: "Big Buck Bunny".to_string(),
        album: None,
        cover_id: None,
        size: 52464391,
        content_type: "video/mp4".to_string(),
        suffix: "mp4".to_string(),
        transcoded_suffix: None,
        transcoded_content_type: None,
        duration: 600,
        bitrate: 699,
        path: "v/bbb.mp4".to_string(),
        is_video: true,
        created: "2018-01-01T10:30:04.000Z".to_string(),
        play_count: None,
        media_type: "video".to_string(),
        bookmark_position: None,
        original_height: Some(360),
        original_width: Some(640),
        stream_br: None,
        stream_size: None,
        stream_offset: 0,
        stream_tc: None,
    };
    video.set_size(640, 360);
    video.set_start_time(100);
    video.set_max_bit_rate(128);
    assert_eq!(
        video.stream_args().to_string(),
        "id=460&maxBitRate=128&size=640x360&timeOffset=100"
    );
    assert_eq!(video.info_args(Some("srt")).to_string(), "id=460&format=srt");
}

#[test]
fn radio_station_arguments() {
    let station = RadioStation {
        id: Id::Numeric(7),
        name: "Radio Paradise".to_string(),
        stream_url: "https://stream.example/rp".to_string(),
        homepage_url: None,
    };
    assert_eq!(station.id(), Id::Numeric(7));
    assert_eq!(
        station.update_args().to_string(),
        "id=7&streamUrl=https://stream.example/rp&name=Radio Paradise"
    );
    assert_eq!(station.delete_args().to_string(), "id=7");
    assert_eq!(
        RadioStation::create_args("RP", "https://stream.example/rp", Some("https://example"))
            .to_string(),
        "name=RP&streamUrl=https://stream.example/rp&homepageUrl=https://example"
    );
}

#[test]
fn jukebox_arguments() {
    let ids = vec!["1887".to_string(), "1888".to_string()];
    assert_eq!(
        sunk::jukebox::jukebox_control_args("add", None, &ids).to_string(),
        "action=add&id=1887&id=1888"
    );
    assert_eq!(
        sunk::jukebox::jukebox_control_args("skip", Some(3), &[]).to_string(),
        "action=skip&index=3"
    );
}

#[test]
fn id_forms() {
    assert_eq!(Id::Numeric(64).to_string(), "64");
    assert_eq!(Id::String("ar-1".to_string()).to_string(), "ar-1");
    assert_eq!(Id::from(5usize), Id::Numeric(5));
    assert_eq!(Id::from("ar-1"), Id::String("ar-1".to_string()));
    assert_eq!(Query::with("id", Id::Numeric(64)).to_string(), "id=64");
}

#[test]
fn user_builder_arguments() {
    let mut builder = User::create("alice", "hunter2", "alice@example.net");
    builder.admin_role(true);
    builder.folders(&[1, 2]);
    builder.max_bit_rate(320);
    let q = builder.create_args();
    assert_eq!(
        q.to_string(),
        "username=alice&password=hunter2&email=alice@example.net&ldapAuthenticated=false\
         &adminRole=true&settingsRole=false&streamRole=false&jukeboxRole=false\
         &downloadRole=false&uploadRole=false&coverArt_role=false&commentRole=false\
         &podcastRole=false&shareRole=false&videoConversionRole=false\
         &musicFolderId=1&musicFolderId=2&maxBitRate=320"
    );
}

#[test]
fn audio_formats_render_lowercase() {
    assert_eq!(AudioFormat::Flac.as_str(), "flac");
    assert_eq!(AudioFormat::Raw.as_str(), "raw");
    assert_eq!(VideoFormat::M2ts.as_str(), "m2ts");
    assert_eq!(Query::with("format", AudioFormat::Mp3).to_string(), "format=mp3");
}

#[test]
fn playlist_arguments() {
    let q = sunk::playlist::create_playlist_args("road trip".to_string(), &[4, 8, 15]);
    assert_eq!(q.to_string(), "name=road trip&songId=4&songId=8&songId=15");
    assert_eq!(
        sunk::playlist::delete_playlist_args("pl-9".to_string()).to_string(),
        "id=pl-9"
    );
}

#[test]
fn user_update_arguments() {
    let user = User {
        username: "guest".to_string(),
        email: "guest@example.net".to_string(),
        max_bit_rate: 0,
        scrobbling_enabled: false,
        ldap_authenticated: false,
        admin_role: false,
        settings_role: true,
        download_role: true,
        upload_role: false,
        playlist_role: false,
        cover_art_role: false,
        comment_role: false,
        podcast_role: false,
        stream_role: true,
        jukebox_role: false,
        share_role: false,
        video_conversion_role: false,
        avatar_last_changed: "2017-03-01T07:11:50.237Z".to_string(),
        folders: vec![0],
    };
    assert_eq!(
        user.update_args().to_string(),
        "username=guest&email=guest@example.net&ldapAuthenticated=false&adminRole=false\
         &settingsRole=true&streamRole=true&jukeboxRole=false&downloadRole=true\
         &uploadRole=false&coverArt_role=false&commentRole=false&podcastRole=false\
         &shareRole=false&videoConversionRole=false&musicFolderId=0&maxBitRate=0"
    );
    assert_eq!(
        user.change_password_args("hunter2").to_string(),
        "username=guest&password=hunter2"
    );
}
