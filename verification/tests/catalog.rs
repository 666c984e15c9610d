use yt_tui::utilities::{
    checked_body, plan_details, player_arguments, playlist_entries, playlist_items_url,
    playlist_videos, playlists_url, read_audio_url, resolver_arguments, resolver_not_started,
    search_entries, search_url, status_is_success, take_last_line, video_details_url, video_ids,
    checked_details_body, checked_search_body, video_url, ContentDetails, PlaylistItem, PlaylistListResponse, ResourceId, SearchItem,
    SearchItemId, SearchListResponse, SearchPlan, Snippet, VideoDetailItem, VideoListResponse,
    VideoSnippet,
};

fn item(id: &str, title: &str, video: Option<&str>) -> PlaylistItem {
    PlaylistItem {
        id: id.to_string(),
        snippet: Snippet {
            title: title.to_string(),
            resourceId: video.map(|v| ResourceId { videoId: v.to_string() }),
        },
    }
}

#[test]
fn playlists_become_title_id_pairs() {
    let response = PlaylistListResponse {
        items: vec![item("PL1", "Lo-fi Mix", None), item("PL2", "Focus", Some("x"))],
    };
    assert_eq!(
        playlist_entries(&response),
        vec![
            ("Lo-fi Mix".to_string(), "PL1".to_string()),
            ("Focus".to_string(), "PL2".to_string()),
        ]
    );
    assert!(playlist_entries(&PlaylistListResponse { items: vec![] }).is_empty());
}

#[test]
fn playlist_items_without_a_video_are_left_out() {
    let response = PlaylistListResponse {
        items: vec![
            item("i1", "First", Some("abc")),
            item("i2", "Deleted", None),
            item("i3", "Third", Some("d-e_f")),
        ],
    };
    assert_eq!(
        playlist_videos(&response),
        vec![
            ("First".to_string(), "https://www.youtube.com/watch?v=abc".to_string()),
            ("Third".to_string(), "https://www.youtube.com/watch?v=d-e_f".to_string()),
        ]
    );
    let none = PlaylistListResponse { items: vec![item("i", "t", None)] };
    assert!(playlist_videos(&none).is_empty());
}

#[test]
fn search_answers_give_ids_and_rows() {
    let found = SearchListResponse {
        items: vec![
            SearchItem { id: SearchItemId { videoId: "a1".to_string() } },
            SearchItem { id: SearchItemId { videoId: "b2".to_string() } },
        ],
    };
    assert_eq!(video_ids(&found), vec!["a1".to_string(), "b2".to_string()]);
    let details = VideoListResponse {
        items: vec![VideoDetailItem {
            snippet: VideoSnippet { title: "Song".to_string(), channelTitle: "Band".to_string() },
            contentDetails: ContentDetails { duration: "PT3M".to_string() },
            id: "a1".to_string(),
        }],
    };
    assert_eq!(
        search_entries(&details),
        vec![("Song".to_string(), "PT3M".to_string(), "Band".to_string(), "a1".to_string())]
    );
}

#[test]
fn request_addresses() {
    assert_eq!(
        playlists_url(),
        "https://www.googleapis.com/youtube/v3/playlists?part=snippet&mine=true&maxResults=50"
    );
    assert_eq!(
        playlist_items_url("PL9"),
        "https://www.googleapis.com/youtube/v3/playlistItems?part=snippet&playlistId=PL9&maxResults=50"
    );
    let base = "https://www.googleapis.com/youtube/v3/videos?part=snippet,contentDetails&id=";
    assert_eq!(video_details_url(&vec![]), base);
    assert_eq!(video_details_url(&vec!["a".to_string()]), format!("{}a", base));
    assert_eq!(
        video_details_url(&vec!["a".to_string(), "b".to_string(), "c".to_string()]),
        format!("{}a,b,c", base)
    );
}

#[test]
fn search_address_encodes_the_query() {
    assert_eq!(
        search_url("lofi"),
        Some(
            "https://www.googleapis.com/youtube/v3/search?part=id&type=video&q=lofi&maxResults=15"
                .to_string()
        )
    );
    assert_eq!(
        search_url("lo fi & jazz=é"),
        Some(
            "https://www.googleapis.com/youtube/v3/search?part=id&type=video&q=lo+fi+%26+jazz%3D%C3%A9&maxResults=15"
                .to_string()
        )
    );
    assert_eq!(
        search_url(""),
        Some(
            "https://www.googleapis.com/youtube/v3/search?part=id&type=video&q=&maxResults=15"
                .to_string()
        )
    );
}

#[test]
fn a_search_that_found_nothing_ends() {
    assert_eq!(plan_details(&vec![]), SearchPlan::Finished);
    assert_eq!(
        plan_details(&vec!["a".to_string(), "b".to_string()]),
        SearchPlan::FetchDetails {
            url: "https://www.googleapis.com/youtube/v3/videos?part=snippet,contentDetails&id=a,b"
                .to_string()
        }
    );
}

#[test]
fn status_codes_from_200_to_299_succeed() {
    for (status, expected) in
        [(0u16, false), (199, false), (200, true), (204, true), (299, true), (300, false), (404, false), (65535, false)]
    {
        assert_eq!(status_is_success(status), expected);
    }
    assert_eq!(checked_body(200, "{}".to_string()), Ok("{}".to_string()));
    assert_eq!(
        checked_body(403, "denied".to_string()),
        Err("YouTube API error (403): denied".to_string())
    );
    assert_eq!(checked_body(300, String::new()), Err("YouTube API error (300): ".to_string()));
}

#[test]
fn failed_search_steps_are_reported() {
    assert_eq!(checked_search_body(200, "200 OK", "{}".to_string()), Ok("{}".to_string()));
    assert_eq!(
        checked_search_body(404, "404 Not Found", "gone".to_string()),
        Err("Search failed (404 Not Found): gone".to_string())
    );
    assert_eq!(checked_details_body(299, "299", "x".to_string()), Ok("x".to_string()));
    assert_eq!(
        checked_details_body(500, "500 Internal Server Error", "".to_string()),
        Err("Video details failed (500 Internal Server Error): ".to_string())
    );
    assert_eq!(video_url("abc"), "https://www.youtube.com/watch?v=abc");
}

#[test]
fn last_line_is_read_as_std_does() {
    for text in [
        "",
        "\n",
        "a",
        "a\n",
        "a\nb",
        "a\nb\n",
        "a\r\nb\r\n",
        "a\r",
        "a\n\n",
        "\r\n",
        "a\nb\r",
        "x\r\r\n",
        "https://one\nhttps://two\n",
    ] {
        assert_eq!(take_last_line(text), text.lines().last().map(|l| l.to_string()), "{:?}", text);
    }
    assert_eq!(take_last_line("u1\nu2\n"), Some("u2".to_string()));
}

#[test]
fn resolver_output_is_read() {
    assert_eq!(read_audio_url(true, "warn\nhttps://a/b\n", "ignored"), Ok("https://a/b".to_string()));
    assert_eq!(read_audio_url(true, "", ""), Err("No URL returned by yt-dlp".to_string()));
    assert_eq!(
        read_audio_url(false, "https://a/b\n", "boom"),
        Err("yt-dlp failed: boom".to_string())
    );
    assert_eq!(resolver_not_started("not found"), "Failed to run yt-dlp: not found");
}

#[test]
fn subprocess_arguments() {
    assert_eq!(resolver_arguments("https://v"), vec!["-g", "-f", "bestaudio", "https://v"]);
    assert_eq!(
        player_arguments("https://a"),
        vec!["--no-video", "--really-quiet", "--no-config", "--idle=no", "https://a"]
    );
}
