//! The pure parts of the catalog client and of the playback chain: the
//! addresses that are asked, what is taken from each answer, and how the
//! output of the stream resolver is read.

use vstd::prelude::*;
use crate::app_state::{pairs, rows, texts};
use crate::text::{chars_of, decimal_digits, push_decimal, slice_chars, string_of, text_of};
use vstd::string::StringExecFns;

verus! {

/// The answer to a playlist or playlist-item listing.
#[derive(Debug)]
pub struct PlaylistListResponse {
    pub items: Vec<PlaylistItem>,
}

#[derive(Debug)]
pub struct PlaylistItem {
    pub id: String,
    pub snippet: Snippet,
}

#[allow(non_snake_case)]
#[derive(Debug)]
pub struct Snippet {
    pub title: String,
    pub resourceId: Option<ResourceId>,
}

#[allow(non_snake_case)]
#[derive(Debug)]
pub struct ResourceId {
    pub videoId: String,
}

/// The answer to a search: the ids of the videos found.
#[derive(Debug)]
pub struct SearchListResponse {
    pub items: Vec<SearchItem>,
}

#[derive(Debug)]
pub struct SearchItem {
    pub id: SearchItemId,
}

#[allow(non_snake_case)]
#[derive(Debug)]
pub struct SearchItemId {
    pub videoId: String,
}

/// The answer to a request for the details of videos.
#[derive(Debug)]
pub struct VideoListResponse {
    pub items: Vec<VideoDetailItem>,
}

#[allow(non_snake_case)]
#[derive(Debug)]
pub struct VideoDetailItem {
    pub snippet: VideoSnippet,
    pub contentDetails: ContentDetails,
    pub id: String,
}

#[allow(non_snake_case)]
#[derive(Debug)]
pub struct VideoSnippet {
    pub title: String,
    pub channelTitle: String,
}

#[derive(Debug)]
pub struct ContentDetails {
    pub duration: String,
}

/// Whether an HTTP status code reports success: 200 to 299.
pub fn status_is_success(status: u16) -> (ok: bool)
    ensures
        ok == (200 <= status < 300),
{
    300 > status && status >= 200
}

/// The (title, id) pairs of the first `count` playlists of an answer.
pub open spec fn playlist_entries_of(items: Seq<PlaylistItem>, count: int) -> Seq<
    (Seq<char>, Seq<char>),
> {
    Seq::new(count as nat, |at: int| (items[at].snippet.title@, items[at].id@))
}

/// The (title, id) pair of every playlist of an answer, in order.
pub fn playlist_entries(response: &PlaylistListResponse) -> (entries: Vec<(String, String)>)
    ensures
        pairs(entries@) == playlist_entries_of(response.items@, response.items@.len() as int),
{
    let mut entries: Vec<(String, String)> = Vec::new();
    let mut at: usize = 0;
    assert(pairs(entries@) =~= playlist_entries_of(response.items@, 0));
    while at < response.items.len()
        invariant
            at <= response.items@.len(),
            pairs(entries@) == playlist_entries_of(response.items@, at as int),
        decreases response.items@.len() - at,
    {
        let ghost before = pairs(entries@);
        let item = &response.items[at];
        let entry = (item.snippet.title.clone(), item.id.clone());
        entries.push(entry);
        assert(pairs(entries@) =~= before.push((item.snippet.title@, item.id@)));
        assert(playlist_entries_of(response.items@, at + 1) =~= playlist_entries_of(
            response.items@,
            at as int,
        ).push((item.snippet.title@, item.id@)));
        at = at + 1;
    }
    entries
}

/// Where a video is watched.
pub open spec fn watch_url(video_id: Seq<char>) -> Seq<char> {
    "https://www.youtube.com/watch?v="@ + video_id
}

/// The address at which the video with the given id is watched.
pub fn video_url(video_id: &str) -> (url: String)
    ensures
        url@ == watch_url(video_id@),
{
    let mut url = String::from_str("https://www.youtube.com/watch?v=");
    url.append(video_id);
    url
}

/// The (title, address) pairs of the items of a playlist that name a
/// video, in order; items that name none are left out.
pub open spec fn playlist_videos_of(items: Seq<PlaylistItem>) -> Seq<(Seq<char>, Seq<char>)>
    decreases items.len(),
{
    if items.len() == 0 {
        Seq::empty()
    } else {
        let before = playlist_videos_of(items.drop_last());
        match items.last().snippet.resourceId {
            Some(resource) => before.push((items.last().snippet.title@, watch_url(resource.videoId@))),
            None => before,
        }
    }
}

/// The (title, address) pair of every item of a playlist that names a video.
pub fn playlist_videos(response: &PlaylistListResponse) -> (videos: Vec<(String, String)>)
    ensures
        pairs(videos@) == playlist_videos_of(response.items@),
{
    let mut videos: Vec<(String, String)> = Vec::new();
    let mut at: usize = 0;
    assert(response.items@.take(0) =~= Seq::empty());
    assert(pairs(videos@) =~= Seq::empty());
    while at < response.items.len()
        invariant
            at <= response.items@.len(),
            pairs(videos@) == playlist_videos_of(response.items@.take(at as int)),
        decreases response.items@.len() - at,
    {
        let ghost before = pairs(videos@);
        let item = &response.items[at];
        proof {
            let next = response.items@.take(at + 1);
            assert(next.drop_last() =~= response.items@.take(at as int));
            assert(next.last() == response.items@[at as int]);
        }
        match &item.snippet.resourceId {
            Some(resource) => {
                let url = video_url(resource.videoId.as_str());
                videos.push((item.snippet.title.clone(), url));
                assert(pairs(videos@) =~= before.push(
                    (item.snippet.title@, watch_url(resource.videoId@)),
                ));
            },
            None => {},
        }
        at = at + 1;
    }
    assert(response.items@.take(response.items@.len() as int) =~= response.items@);
    videos
}

/// The ids of the first `count` videos of a search answer.
pub open spec fn video_ids_of(items: Seq<SearchItem>, count: int) -> Seq<Seq<char>> {
    Seq::new(count as nat, |at: int| items[at].id.videoId@)
}

/// The id of every video of a search answer, in order.
pub fn video_ids(response: &SearchListResponse) -> (ids: Vec<String>)
    ensures
        texts(ids@) == video_ids_of(response.items@, response.items@.len() as int),
{
    let mut ids: Vec<String> = Vec::new();
    let mut at: usize = 0;
    assert(texts(ids@) =~= video_ids_of(response.items@, 0));
    while at < response.items.len()
        invariant
            at <= response.items@.len(),
            texts(ids@) == video_ids_of(response.items@, at as int),
        decreases response.items@.len() - at,
    {
        let ghost before = texts(ids@);
        let id = response.items[at].id.videoId.clone();
        ids.push(id);
        assert(texts(ids@) =~= before.push(response.items@[at as int].id.videoId@));
        assert(video_ids_of(response.items@, at + 1) =~= video_ids_of(
            response.items@,
            at as int,
        ).push(response.items@[at as int].id.videoId@));
        at = at + 1;
    }
    ids
}

/// The (title, duration, uploader, id) rows of the first `count` videos of
/// a details answer.
pub open spec fn search_entries_of(items: Seq<VideoDetailItem>, count: int) -> Seq<
    (Seq<char>, Seq<char>, Seq<char>, Seq<char>),
> {
    Seq::new(
        count as nat,
        |at: int|
            (
                items[at].snippet.title@,
                items[at].contentDetails.duration@,
                items[at].snippet.channelTitle@,
                items[at].id@,
            ),
    )
}

/// The (title, duration, uploader, id) row of every video of a details
/// answer, in order.
pub fn search_entries(response: &VideoListResponse) -> (entries: Vec<
    (String, String, String, String),
>)
    ensures
        rows(entries@) == search_entries_of(response.items@, response.items@.len() as int),
{
    let mut entries: Vec<(String, String, String, String)> = Vec::new();
    let mut at: usize = 0;
    assert(rows(entries@) =~= search_entries_of(response.items@, 0));
    while at < response.items.len()
        invariant
            at <= response.items@.len(),
            rows(entries@) == search_entries_of(response.items@, at as int),
        decreases response.items@.len() - at,
    {
        let ghost before = rows(entries@);
        let item = &response.items[at];
        let entry = (
            item.snippet.title.clone(),
            item.contentDetails.duration.clone(),
            item.snippet.channelTitle.clone(),
            item.id.clone(),
        );
        entries.push(entry);
        assert(rows(entries@) =~= before.push(
            (
                item.snippet.title@,
                item.contentDetails.duration@,
                item.snippet.channelTitle@,
                item.id@,
            ),
        ));
        assert(search_entries_of(response.items@, at + 1) =~= search_entries_of(
            response.items@,
            at as int,
        ).push(
            (
                item.snippet.title@,
                item.contentDetails.duration@,
                item.snippet.channelTitle@,
                item.id@,
            ),
        ));
        at = at + 1;
    }
    entries
}

/// The parts joined into one text, with `separator` between neighbours.
pub open spec fn joined(parts: Seq<Seq<char>>, separator: Seq<char>) -> Seq<char>
    decreases parts.len(),
{
    if parts.len() == 0 {
        Seq::empty()
    } else if parts.len() == 1 {
        parts[0]
    } else {
        joined(parts.drop_last(), separator) + separator + parts.last()
    }
}

/// Where the playlists of the account are listed.
pub fn playlists_url() -> (url: String)
    ensures
        url@
            == "https://www.googleapis.com/youtube/v3/playlists?part=snippet&mine=true&maxResults=50"@,
{
    String::from_str(
        "https://www.googleapis.com/youtube/v3/playlists?part=snippet&mine=true&maxResults=50",
    )
}

/// Where the items of a playlist are listed.
pub fn playlist_items_url(playlist_id: &str) -> (url: String)
    ensures
        url@ == "https://www.googleapis.com/youtube/v3/playlistItems?part=snippet&playlistId="@
            + playlist_id@ + "&maxResults=50"@,
{
    let mut url = String::from_str(
        "https://www.googleapis.com/youtube/v3/playlistItems?part=snippet&playlistId=",
    );
    url.append(playlist_id);
    url.append("&maxResults=50");
    url
}

/// Where the details of the videos with the given ids are asked.
pub fn video_details_url(ids: &Vec<String>) -> (url: String)
    ensures
        url@ == "https://www.googleapis.com/youtube/v3/videos?part=snippet,contentDetails&id="@
            + joined(texts(ids@), ","@),
{
    let mut url = String::from_str(
        "https://www.googleapis.com/youtube/v3/videos?part=snippet,contentDetails&id=",
    );
    let ghost head = url@;
    let ghost all = texts(ids@);
    let mut at: usize = 0;
    assert(all.take(0) =~= Seq::empty());
    assert(url@ =~= head + joined(all.take(0), ","@));
    while at < ids.len()
        invariant
            at <= ids@.len(),
            all == texts(ids@),
            url@ == head + joined(all.take(at as int), ","@),
        decreases ids@.len() - at,
    {
        proof {
            let next = all.take(at + 1);
            assert(next.drop_last() =~= all.take(at as int));
            assert(next.last() == ids@[at as int]@);
        }
        if at > 0 {
            url.append(",");
        }
        url.append(ids[at].as_str());
        assert(url@ =~= head + joined(all.take(at + 1), ","@));
        at = at + 1;
    }
    assert(all.take(ids@.len() as int) =~= all);
    url
}

/// The report of a listing that the service refused.
pub open spec fn api_error_text(status: u16, body: Seq<char>) -> Seq<char> {
    "YouTube API error ("@ + decimal_digits(status as nat) + "): "@ + body
}

/// The body of an answer to a listing where its status reports success,
/// else the report of the refusal.
pub fn checked_body(status: u16, body: String) -> (r: Result<String, String>)
    ensures
        200 <= status < 300 ==> r == Ok::<String, String>(body),
        !(200 <= status < 300) ==> r is Err && r->Err_0@ == api_error_text(status, body@),
{
    if status_is_success(status) {
        Ok(body)
    } else {
        let mut report = String::from_str("YouTube API error (");
        push_decimal(&mut report, status as u64);
        report.append("): ");
        report.append(body.as_str());
        assert(report@ =~= api_error_text(status, body@));
        Err(report)
    }
}

/// The report of a failed step of a search: what failed, the status line
/// and the body of the answer.
pub open spec fn step_failure_text(what: Seq<char>, status_line: Seq<char>, body: Seq<char>) -> Seq<
    char,
> {
    what + " ("@ + status_line + "): "@ + body
}

fn checked_step_body(what: &str, status: u16, status_line: &str, body: String) -> (r: Result<
    String,
    String,
>)
    ensures
        200 <= status < 300 ==> r == Ok::<String, String>(body),
        !(200 <= status < 300) ==> r is Err && r->Err_0@ == step_failure_text(
            what@,
            status_line@,
            body@,
        ),
{
    if status_is_success(status) {
        Ok(body)
    } else {
        let mut report = String::from_str(what);
        report.append(" (");
        report.append(status_line);
        report.append("): ");
        report.append(body.as_str());
        assert(report@ =~= step_failure_text(what@, status_line@, body@));
        Err(report)
    }
}

/// The body of the answer to the first step of a search where its status
/// reports success, else the report that the search failed.
pub fn checked_search_body(status: u16, status_line: &str, body: String) -> (r: Result<
    String,
    String,
>)
    ensures
        200 <= status < 300 ==> r == Ok::<String, String>(body),
        !(200 <= status < 300) ==> r is Err && r->Err_0@ == step_failure_text(
            "Search failed"@,
            status_line@,
            body@,
        ),
{
    checked_step_body("Search failed", status, status_line, body)
}

/// The body of the answer to the second step of a search where its status
/// reports success, else the report that the details could not be had.
pub fn checked_details_body(status: u16, status_line: &str, body: String) -> (r: Result<
    String,
    String,
>)
    ensures
        200 <= status < 300 ==> r == Ok::<String, String>(body),
        !(200 <= status < 300) ==> r is Err && r->Err_0@ == step_failure_text(
            "Video details failed"@,
            status_line@,
            body@,
        ),
{
    checked_step_body("Video details failed", status, status_line, body)
}

/// What a search does once it knows the ids it found.
#[derive(Debug, PartialEq, Eq)]
pub enum SearchPlan {
    /// Nothing was found: the search ends with no rows.
    Finished,
    /// Ask for the details of the videos at this address.
    FetchDetails { url: String },
}

/// The second step of a search: none where nothing was found, else the
/// request for the details of all the videos found.
pub fn plan_details(ids: &Vec<String>) -> (plan: SearchPlan)
    ensures
        ids@.len() == 0 ==> plan == SearchPlan::Finished,
        ids@.len() > 0 ==> plan is FetchDetails && plan->url@
            == "https://www.googleapis.com/youtube/v3/videos?part=snippet,contentDetails&id="@
            + joined(texts(ids@), ","@),
{
    if ids.len() == 0 {
        SearchPlan::Finished
    } else {
        SearchPlan::FetchDetails { url: video_details_url(ids) }
    }
}

/// Longest base address, key and value, taken together, that are handed to
/// the address builder.
pub const MAX_PAIR_INPUT: usize = 0x0fff_ffff;

/// What `Url::parse` followed by `query_pairs_mut().append_pair(key, value)`
/// and serialization makes of an address: the address with one more
/// percent-encoded pair in its query, or nothing where the address does
/// not parse.
pub uninterp spec fn url_with_pair(base: Seq<char>, key: Seq<char>, value: Seq<char>) -> Option<
    Seq<char>,
>;

/// Calls `url::Url::parse` on `base`, then `query_pairs_mut().append_pair`
/// on the parsed address, and serializes it. The result is a function of
/// the three texts alone; the contract gives it a name and says nothing
/// else of it. The bound keeps the serialization far below the 4 GiB at
/// which the crate would panic.
#[verifier::external_body]
pub(crate) fn append_query_pair(base: &str, key: &str, value: &str) -> (url: Option<String>)
    requires
        base@.len() + key@.len() + value@.len() <= MAX_PAIR_INPUT,
    ensures
        match url {
            Some(u) => url_with_pair(base@, key@, value@) == Some(u@),
            None => url_with_pair(base@, key@, value@) is None,
        },
{
    match url::Url::parse(base) {
        Ok(mut parsed) => {
            parsed.query_pairs_mut().append_pair(key, value);
            Some(parsed.to_string())
        },
        Err(_) => None,
    }
}

/// An address with one more pair in its query, where the texts are short
/// enough to be handed on and the address parses.
pub open spec fn with_pair(base: Option<Seq<char>>, key: Seq<char>, value: Seq<char>) -> Option<
    Seq<char>,
> {
    match base {
        Some(b) => if b.len() + key.len() + value.len() <= MAX_PAIR_INPUT {
            url_with_pair(b, key, value)
        } else {
            None
        },
        None => None,
    }
}

fn add_pair(base: Option<String>, key: &str, value: &str) -> (url: Option<String>)
    ensures
        match url {
            Some(u) => with_pair(text_of(base), key@, value@) == Some(u@),
            None => with_pair(text_of(base), key@, value@) is None,
        },
{
    match base {
        Some(b) => {
            let b_len: usize = b.as_str().unicode_len();
            let k_len: usize = key.unicode_len();
            let v_len: usize = value.unicode_len();
            if b_len <= MAX_PAIR_INPUT && k_len <= MAX_PAIR_INPUT - b_len && v_len <= MAX_PAIR_INPUT
                - b_len - k_len {
                append_query_pair(b.as_str(), key, value)
            } else {
                None
            }
        },
        None => None,
    }
}

/// The address of a search for `query`: the search endpoint with the pairs
/// `part=id`, `type=video`, `q=<query>` and `maxResults=15`, in this order.
pub open spec fn search_url_of(query: Seq<char>) -> Option<Seq<char>> {
    with_pair(
        with_pair(
            with_pair(
                with_pair(
                    Some("https://www.googleapis.com/youtube/v3/search"@),
                    "part"@,
                    "id"@,
                ),
                "type"@,
                "video"@,
            ),
            "q"@,
            query,
        ),
        "maxResults"@,
        "15"@,
    )
}

/// The address at which `query` is searched, or nothing where it cannot
/// be built.
pub fn search_url(query: &str) -> (url: Option<String>)
    ensures
        text_of(url) == search_url_of(query@),
{
    let base = Some(String::from_str("https://www.googleapis.com/youtube/v3/search"));
    let with_part = add_pair(base, "part", "id");
    let with_type = add_pair(with_part, "type", "video");
    let with_query = add_pair(with_type, "q", query);
    add_pair(with_query, "maxResults", "15")
}

/// Where the last line of a text without its final line break starts:
/// behind its last line feed, or at its start where it has none.
pub open spec fn last_line_start(body: Seq<char>) -> int
    decreases body.len(),
{
    if body.len() == 0 {
        0
    } else if body.last() == '\n' {
        body.len() as int
    } else {
        last_line_start(body.drop_last())
    }
}

/// The last line of a text. Lines end at a line feed, which may follow a
/// carriage return; neither belongs to the line, and the last line need
/// not be ended. An empty text has no line.
pub open spec fn last_line(out: Seq<char>) -> Option<Seq<char>> {
    if out.len() == 0 {
        None
    } else {
        let ended = out.last() == '\n';
        let body = if ended {
            out.drop_last()
        } else {
            out
        };
        let line = body.skip(last_line_start(body));
        if ended && line.len() > 0 && line.last() == '\r' {
            Some(line.drop_last())
        } else {
            Some(line)
        }
    }
}

proof fn lemma_last_line_start(body: Seq<char>, k: int)
    requires
        0 <= k <= body.len(),
        forall|i: int| k <= i < body.len() ==> #[trigger] body[i] != '\n',
        k == 0 || body[k - 1] == '\n',
    ensures
        last_line_start(body) == k,
    decreases body.len(),
{
    if body.len() > k {
        let front = body.drop_last();
        assert forall|i: int| k <= i < front.len() implies #[trigger] front[i] != '\n' by {
            assert(front[i] == body[i]);
        }
        lemma_last_line_start(front, k);
    }
}

/// The last line of `out`, if it has any line.
pub fn take_last_line(out: &str) -> (line: Option<String>)
    ensures
        text_of(line) == last_line(out@),
{
    let chars = chars_of(out);
    let n: usize = chars.len();
    if n == 0 {
        return None;
    }
    let ended: bool = chars[n - 1] == '\n';
    let end: usize = if ended { n - 1 } else { n };
    let ghost body = if ended { out@.drop_last() } else { out@ };
    assert(body =~= chars@.take(end as int));
    let mut start: usize = end;
    while start > 0 && chars[start - 1] != '\n'
        invariant
            start <= end <= chars@.len(),
            forall|i: int| start <= i < end ==> #[trigger] chars@[i] != '\n',
        decreases start,
    {
        start = start - 1;
    }
    proof {
        assert forall|i: int| start <= i < body.len() implies #[trigger] body[i] != '\n' by {
            assert(body[i] == chars@[i]);
        }
        lemma_last_line_start(body, start as int);
    }
    let stop: usize = if ended && end > start && chars[end - 1] == '\r' { end - 1 } else { end };
    let kept = slice_chars(&chars, start, stop);
    proof {
        let line = body.skip(start as int);
        assert(line =~= chars@.subrange(start as int, end as int));
        if ended && line.len() > 0 && line.last() == '\r' {
            assert(line.drop_last() =~= kept@);
        } else {
            assert(line =~= kept@);
        }
    }
    Some(string_of(&kept))
}

/// What running the stream resolver gave: the address on the last line of
/// its output, or the reason why there is none.
pub open spec fn audio_url_of(succeeded: bool, output: Seq<char>, errors: Seq<char>) -> Result<
    Seq<char>,
    Seq<char>,
> {
    if !succeeded {
        Err("yt-dlp failed: "@ + errors)
    } else {
        match last_line(output) {
            Some(line) => Ok(line),
            None => Err("No URL returned by yt-dlp"@),
        }
    }
}

/// Reads the outcome of the stream resolver: where it succeeded, the
/// address is the last line of its output.
pub fn read_audio_url(succeeded: bool, output: &str, errors: &str) -> (url: Result<String, String>)
    ensures
        match audio_url_of(succeeded, output@, errors@) {
            Ok(text) => url is Ok && url->Ok_0@ == text,
            Err(text) => url is Err && url->Err_0@ == text,
        },
{
    if !succeeded {
        let mut report = String::from_str("yt-dlp failed: ");
        report.append(errors);
        Err(report)
    } else {
        match take_last_line(output) {
            Some(line) => Ok(line),
            None => Err(String::from_str("No URL returned by yt-dlp")),
        }
    }
}

/// The report of a stream resolver that could not be started.
pub fn resolver_not_started(reason: &str) -> (report: String)
    ensures
        report@ == "Failed to run yt-dlp: "@ + reason@,
{
    let mut report = String::from_str("Failed to run yt-dlp: ");
    report.append(reason);
    report
}

/// The arguments with which the stream resolver is asked for the audio
/// stream of a video.
pub fn resolver_arguments(video_url: &str) -> (arguments: Vec<String>)
    ensures
        texts(arguments@) == seq!["-g"@, "-f"@, "bestaudio"@, video_url@],
{
    let mut arguments: Vec<String> = Vec::new();
    arguments.push(String::from_str("-g"));
    arguments.push(String::from_str("-f"));
    arguments.push(String::from_str("bestaudio"));
    arguments.push(String::from_str(video_url));
    assert(texts(arguments@) =~= seq!["-g"@, "-f"@, "bestaudio"@, video_url@]);
    arguments
}

/// The arguments with which the player plays an audio stream.
pub fn player_arguments(audio_url: &str) -> (arguments: Vec<String>)
    ensures
        texts(arguments@) == seq![
            "--no-video"@,
            "--really-quiet"@,
            "--no-config"@,
            "--idle=no"@,
            audio_url@,
        ],
{
    let mut arguments: Vec<String> = Vec::new();
    arguments.push(String::from_str("--no-video"));
    arguments.push(String::from_str("--really-quiet"));
    arguments.push(String::from_str("--no-config"));
    arguments.push(String::from_str("--idle=no"));
    arguments.push(String::from_str(audio_url));
    assert(texts(arguments@) =~= seq![
        "--no-video"@,
        "--really-quiet"@,
        "--no-config"@,
        "--idle=no"@,
        audio_url@,
    ]);
    arguments
}

} // verus!
