use sadmadbotlad::event_handler::{handle_mpv_event, MpvEvent};
use sadmadbotlad::song_requests::{
    added_reply, handle_queue_message, link_song, song_from_link, song_from_search, sr_answer, sr_target,
    Queue, QueueMessage, QueueReply, SongRequest, SongRequestsError, SrTarget,
};
use sadmadbotlad::youtube::{
    encode_query, search_result_title, search_result_video, search_url, video_id_from_url, VideoInfo,
};

fn song(n: usize) -> SongRequest {
    SongRequest {
        title: format!("title {n}"),
        url: format!("https://youtube.com/watch/{n}"),
        id: format!("{n}"),
        user: format!("user{n}"),
    }
}

#[test]
fn new_queue_is_empty() {
    let q = Queue::new();
    assert!(q.current_song.is_none());
    assert_eq!(q.rear, 0);
    assert!(q.queue.iter().all(|s| s.is_none()));
}

#[test]
fn queue_refuses_the_twenty_first_song() {
    let mut q = Queue::new();
    for n in 0..20 {
        assert!(q.enqueue(&song(n)).is_ok());
    }
    assert_eq!(q.rear, 20);
    assert!(matches!(q.enqueue(&song(20)), Err(SongRequestsError::QueueFull)));
    assert_eq!(q.rear, 20);
    assert_eq!(q.queue[19].as_ref().unwrap().title, "title 19");
}

#[test]
fn dequeue_serves_first_in_first_out() {
    let mut q = Queue::new();
    for n in 0..3 {
        q.enqueue(&song(n)).unwrap();
    }
    let mut served = Vec::new();
    while q.rear > 0 {
        q.dequeue();
        served.push(q.current_song.as_ref().unwrap().title.clone());
    }
    assert_eq!(served, vec!["title 0", "title 1", "title 2"]);
    assert!(q.queue.iter().all(|s| s.is_none()));
}

#[test]
fn dequeue_of_the_last_song_empties_the_slots() {
    let mut q = Queue::new();
    q.enqueue(&song(7)).unwrap();
    q.dequeue();
    assert_eq!(q.rear, 0);
    assert!(q.queue[0].is_none());
    assert_eq!(q.current_song.as_ref().unwrap().id, "7");
}

#[test]
fn clear_current_song_waits_for_an_empty_queue() {
    let mut q = Queue::new();
    q.enqueue(&song(1)).unwrap();
    q.enqueue(&song(2)).unwrap();
    q.dequeue();
    q.clear_current_song();
    assert_eq!(q.current_song.as_ref().unwrap().title, "title 1");
    q.dequeue();
    q.clear_current_song();
    assert!(q.current_song.is_none());
}

#[test]
fn queue_task_answers_each_request() {
    let mut q = Queue::new();
    assert!(matches!(handle_queue_message(&mut q, QueueMessage::Enqueue(song(1))), QueueReply::Done));
    match handle_queue_message(&mut q, QueueMessage::GetQueue) {
        QueueReply::Queue(copy) => {
            assert_eq!(copy.rear, 1);
            assert_eq!(copy.queue[0].as_ref().unwrap().title, "title 1");
        }
        other => panic!("unexpected {other:?}"),
    }
    assert!(matches!(handle_queue_message(&mut q, QueueMessage::GetCurrentSong), QueueReply::CurrentSong(None)));
    assert!(matches!(handle_queue_message(&mut q, QueueMessage::Dequeue), QueueReply::Done));
    match handle_queue_message(&mut q, QueueMessage::GetCurrentSong) {
        QueueReply::CurrentSong(Some(s)) => assert_eq!(s.title, "title 1"),
        other => panic!("unexpected {other:?}"),
    }
    assert!(matches!(handle_queue_message(&mut q, QueueMessage::ClearCurrentSong), QueueReply::Done));
    assert!(q.current_song.is_none());
}

#[test]
fn queue_task_reports_a_full_queue() {
    let mut q = Queue::new();
    for n in 0..20 {
        handle_queue_message(&mut q, QueueMessage::Enqueue(song(n)));
    }
    assert!(matches!(
        handle_queue_message(&mut q, QueueMessage::Enqueue(song(99))),
        QueueReply::Refused(SongRequestsError::QueueFull)
    ));
}

#[test]
fn player_notifications_move_the_queue() {
    let mut q = Queue::new();
    q.enqueue(&song(1)).unwrap();
    q.enqueue(&song(2)).unwrap();
    handle_mpv_event(&mut q, MpvEvent::DequeueSong);
    assert_eq!(q.current_song.as_ref().unwrap().title, "title 1");
    assert_eq!(q.rear, 1);
    handle_mpv_event(&mut q, MpvEvent::DequeueSong);
    assert!(q.current_song.is_none());
    assert_eq!(q.rear, 1);
    handle_mpv_event(&mut q, MpvEvent::DequeueSong);
    assert_eq!(q.current_song.as_ref().unwrap().title, "title 2");
    handle_mpv_event(&mut q, MpvEvent::Error(-2));
    assert!(q.current_song.is_none());
    assert_eq!(q.rear, 0);
}

#[test]
fn video_id_from_every_link_form() {
    assert_eq!(video_id_from_url("https://www.youtube.com/watch?v=abc&t=1").ok(), Some("abc"));
    assert_eq!(video_id_from_url("https://www.youtube.com/watch?v=dQw4w9WgXcQ").ok(), Some("dQw4w9WgXcQ"));
    assert_eq!(video_id_from_url("https://youtu.be/xyz").ok(), Some("xyz"));
    assert_eq!(video_id_from_url("https://youtube.com/watch/qq").ok(), Some("qq"));
    assert!(matches!(
        video_id_from_url("https://example.com/video"),
        Err(SongRequestsError::InvalidYoutubeUrl)
    ));
}

#[test]
fn sr_target_tells_searches_from_links() {
    match sr_target("never gonna give you up") {
        Ok(SrTarget::Search(q)) => assert_eq!(q, "never gonna give you up"),
        other => panic!("unexpected {other:?}"),
    }
    match sr_target("https://youtu.be/abc") {
        Ok(SrTarget::Link(id)) => assert_eq!(id, "abc"),
        other => panic!("unexpected {other:?}"),
    }
    assert!(matches!(sr_target("https://example.com"), Err(SongRequestsError::InvalidYoutubeUrl)));
}

#[test]
fn songs_from_searches_and_links() {
    let s = song_from_search("bob", VideoInfo { id: String::from("id1"), title: String::from("T") });
    assert_eq!(s.url, "https://www.youtube.com/watch/id1");
    assert_eq!(s.id, "id1");
    assert_eq!(s.user, "bob");
    let l = link_song("amy", "id2", "Song");
    assert_eq!(l.url, "https://youtube.com/watch/id2");
    assert_eq!(l.title, "Song");
    assert_eq!(added_reply(&l), "Added: Song");
}

#[test]
fn linked_titles_lose_their_html_references() {
    let s = song_from_link("amy", "id3", "Rock &amp; Roll &#39;77");
    assert_eq!(s.title, "Rock & Roll '77");
    assert_eq!(s.url, "https://youtube.com/watch/id3");
    assert_eq!(s.id, "id3");
    assert_eq!(s.user, "amy");
}

#[test]
fn search_queries_are_percent_encoded() {
    assert_eq!(encode_query("a b\"<c>`d"), "a%20b%22%3Cc%3E%60d");
    assert_eq!(encode_query("caf\u{e9}"), "caf%C3%A9");
    assert_eq!(encode_query("x\n&y=1"), "x%0A&y=1");
    assert_eq!(
        search_url("q%20w", "KEY"),
        "https://youtube.googleapis.com/youtube/v3/search?part=snippet&maxResults=1&q=q%20w&type=video&key=KEY"
    );
}

#[test]
fn song_request_errors_carry_their_text() {
    assert_eq!(SongRequestsError::QueueFull.message(), "queue is full");
    assert_eq!(SongRequestsError::InvalidYoutubeUrl.message(), "Not A Valid Youtube URL");
    let mut q = Queue::new();
    for n in 0..20 {
        q.enqueue(&song(n)).unwrap();
    }
    assert_eq!(q.enqueue(&song(20)).unwrap_err().message(), "queue is full");
    assert_eq!(video_id_from_url("https://vimeo.com/1").unwrap_err().message(), "Not A Valid Youtube URL");
}

#[test]
fn failed_song_requests_are_answered_with_the_invalid_link_line() {
    assert_eq!(sr_answer::<()>(&Ok(String::from("Added: x"))), "Added: x");
    assert_eq!(sr_answer(&Err(SongRequestsError::QueueFull)), "Not a valid youtube URL");
    assert_eq!(sr_answer(&Err("lookup failed")), "Not a valid youtube URL");
}

#[test]
fn youtube_search_answers_are_read() {
    let raw = r#"{"items":[{"id":{"videoId":"abc"},"snippet":{"title":"Song &amp; Dance"}}]}"#;
    let video = search_result_video(raw).unwrap();
    assert_eq!(video.id, "abc");
    assert_eq!(video.title, "Song &amp; Dance");
    assert_eq!(search_result_title(raw).as_deref(), Some("Song &amp; Dance"));
    assert!(search_result_video(r#"{"items":[]}"#).is_none());
    assert!(search_result_video(r#"{"items":[{"snippet":{"title":"t"}}]}"#).is_none());
    assert!(search_result_title("{}").is_none());
}
