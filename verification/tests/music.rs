use tunebot::commands::music::{duration_hhmmss, progress_bar, LoopState};

#[test]
fn durations_as_clock_time() {
    assert_eq!(duration_hhmmss(0), "00:00:00");
    assert_eq!(duration_hhmmss(59), "00:00:59");
    assert_eq!(duration_hhmmss(60), "00:01:00");
    assert_eq!(duration_hhmmss(212), "00:03:32");
    assert_eq!(duration_hhmmss(3599), "00:59:59");
    assert_eq!(duration_hhmmss(3600), "01:00:00");
    assert_eq!(duration_hhmmss(86399), "23:59:59");
}

#[test]
fn long_durations_keep_all_hour_digits() {
    assert_eq!(duration_hhmmss(360000), "100:00:00");
    assert_eq!(duration_hhmmss(u64::MAX), "5124095576030431:00:15");
}

#[test]
fn progress_bar_fills_from_the_left() {
    assert_eq!(progress_bar(0, 18), "**[------------------]**");
    assert_eq!(progress_bar(9, 18), "**[#########---------]**");
    assert_eq!(progress_bar(17, 18), "**[#################-]**");
    assert_eq!(progress_bar(18, 18), "**[##################]**");
    assert_eq!(progress_bar(6, 18), "**[######------------]**");
}

#[test]
fn progress_bar_has_the_length_asked_for() {
    for bar_length in 0..20usize {
        for filled in 0..=bar_length {
            let bar = progress_bar(filled, bar_length);
            assert_eq!(bar.len(), bar_length + 6);
            assert_eq!(bar.matches('#').count(), filled);
            assert_eq!(bar.matches('-').count(), bar_length - filled);
            assert!(bar.starts_with("**["));
            assert!(bar.ends_with("]**"));
        }
    }
}

#[test]
fn progress_bar_edge_cases() {
    assert_eq!(progress_bar(0, 0), "**[]**");
    assert_eq!(progress_bar(0, 1), "**[-]**");
    assert_eq!(progress_bar(1, 1), "**[#]**");
    assert_eq!(progress_bar(1, 2), "**[#-]**");
}

#[test]
fn loop_states_differ() {
    assert_ne!(LoopState::Loop, LoopState::NoLoop);
    assert_eq!(LoopState::Loop, LoopState::Loop);
}

use tunebot::audio::sources::AuxMetadata;
use tunebot::commands::music::{
    admission, control_reply, enqueue_position, loop_reply, now_playing_progress,
    now_playing_refusal, play_refusal, query_kind, queue_pages, queue_refusal, time_left_footer,
    track_embed, Admission, Control, QueryKind, TrackData,
};

fn titles(n: usize) -> Vec<Option<String>> {
    (0..n).map(|i| Some(format!("song {i}"))).collect()
}

fn metadata() -> AuxMetadata {
    AuxMetadata {
        track: None,
        artist: None,
        album: None,
        date: None,
        channels: Some(2),
        channel: Some("Y".to_string()),
        duration: Some(212),
        source_url: Some("https://www.youtube.com/watch?v=dQw4w9WgXcQ".to_string()),
        title: Some("X".to_string()),
        thumbnail: Some("https://i.example/first.jpg".to_string()),
    }
}

fn bare_metadata() -> AuxMetadata {
    AuxMetadata {
        track: None,
        artist: None,
        album: None,
        date: None,
        channels: None,
        channel: None,
        duration: None,
        source_url: None,
        title: None,
        thumbnail: None,
    }
}

#[test]
fn empty_queue_has_no_pages() {
    assert_eq!(queue_pages(&Vec::new()), Vec::<String>::new());
}

#[test]
fn short_queue_is_one_page() {
    let pages = queue_pages(&vec![Some("a".to_string()), None, Some("c".to_string())]);
    assert_eq!(pages, vec!["0. a\n1. ~~~~\n2. c".to_string()]);
}

#[test]
fn ten_tracks_fill_one_page() {
    let pages = queue_pages(&titles(10));
    assert_eq!(pages.len(), 1);
    assert_eq!(
        pages[0],
        "0. song 0\n1. song 1\n2. song 2\n3. song 3\n4. song 4\n5. song 5\n6. song 6\n7. song 7\n8. song 8\n9. song 9"
    );
}

#[test]
fn eleventh_track_opens_a_page() {
    let pages = queue_pages(&titles(11));
    assert_eq!(pages.len(), 2);
    assert_eq!(pages[1], "10. song 10");
}

#[test]
fn pages_keep_queue_order() {
    let pages = queue_pages(&titles(25));
    assert_eq!(pages.len(), 3);
    assert!(pages[0].starts_with("0. song 0\n1. song 1\n"));
    assert!(pages[1].starts_with("10. song 10\n11. song 11\n"));
    assert!(pages[1].ends_with("\n19. song 19"));
    assert_eq!(pages[2], "20. song 20\n21. song 21\n22. song 22\n23. song 23\n24. song 24");
    for page in &pages[..2] {
        assert_eq!(page.lines().count(), 10);
    }
}

#[test]
fn card_of_a_described_track() {
    let data = TrackData { metadata: metadata(), requester: "alice".to_string() };
    let card = track_embed("Now Playing", &data);
    assert_eq!(card.title, "Now Playing");
    assert_eq!(card.description, "### X");
    assert_eq!(card.link, "[click me](https://www.youtube.com/watch?v=dQw4w9WgXcQ)");
    assert_eq!(card.channel, "Y");
    assert_eq!(card.requester, "alice");
    assert_eq!(card.footer, "Duration: 00:03:32");
}

#[test]
fn card_of_an_undescribed_track() {
    let data = TrackData { metadata: bare_metadata(), requester: "bob".to_string() };
    let card = track_embed("Enqueued", &data);
    assert_eq!(card.title, "Enqueued");
    assert_eq!(card.description, "### No Title");
    assert_eq!(card.link, "[click me]()");
    assert_eq!(card.channel, "No Channel");
    assert_eq!(card.requester, "bob");
    assert_eq!(card.footer, "Duration: 00:00:00");
}

#[test]
fn progress_of_the_playing_track() {
    assert_eq!(
        now_playing_progress(106, 212, 9),
        "[00:01:46/00:03:32]\n**[#########---------]**"
    );
    assert_eq!(now_playing_progress(0, 0, 0), "[00:00:00/00:00:00]\n**[------------------]**");
    assert_eq!(
        now_playing_progress(3600, 3600, 18),
        "[01:00:00/01:00:00]\n**[##################]**"
    );
    assert_eq!(
        now_playing_progress(1152921504606846976, 1152921504606846977, 18),
        "[320255973501901:56:16/320255973501901:56:17]\n**[##################]**"
    );
}

#[test]
fn footer_of_the_playing_track() {
    assert_eq!(time_left_footer(106), "00:01:46 left in track");
    assert_eq!(time_left_footer(0), "00:00:00 left in track");
}

#[test]
fn addresses_and_search_terms() {
    assert_eq!(query_kind("https://www.youtube.com/watch?v=dQw4w9WgXcQ"), QueryKind::Url);
    assert_eq!(query_kind("https"), QueryKind::Url);
    assert_eq!(query_kind("http://www.youtube.com"), QueryKind::SearchTerm);
    assert_eq!(query_kind("never gonna give you up"), QueryKind::SearchTerm);
    assert_eq!(query_kind(""), QueryKind::SearchTerm);
    assert_eq!(query_kind("dQw4w9WgXcQ"), QueryKind::SearchTerm);
}

#[test]
fn who_may_play() {
    assert_eq!(admission(None, None), Admission::NoVoiceChannel);
    assert_eq!(admission(None, Some(5)), Admission::NoVoiceChannel);
    assert_eq!(admission(Some(7), None), Admission::Join { channel: 7 });
    assert_eq!(admission(Some(7), Some(5)), Admission::OtherChannel);
    assert_eq!(admission(Some(7), Some(7)), Admission::Admitted);
}

#[test]
fn refusals_to_play() {
    let refusal = play_refusal(Admission::NoVoiceChannel).unwrap();
    assert_eq!(refusal.text, "You are not in a voice channel");
    assert!(refusal.ephemeral);
    let refusal = play_refusal(Admission::OtherChannel).unwrap();
    assert_eq!(refusal.text, "You are not in my voice channel");
    assert!(refusal.ephemeral);
    assert!(play_refusal(Admission::Admitted).is_none());
    assert!(play_refusal(Admission::Join { channel: 1 }).is_none());
}

#[test]
fn position_in_the_queue() {
    assert_eq!(enqueue_position(0), None);
    assert_eq!(enqueue_position(1), Some("#2 in queue".to_string()));
    assert_eq!(enqueue_position(9), Some("#10 in queue".to_string()));
    assert_eq!(enqueue_position(99), Some("#100 in queue".to_string()));
}

#[test]
fn answers_to_queue_commands() {
    let cases = [
        (Control::Leave, "Leaving the channel"),
        (Control::Clear, "Cleared queue"),
        (Control::Skip, "Skipped track"),
        (Control::Pause, "Paused queue"),
        (Control::Resume, "Resumed queue"),
    ];
    for (control, text) in cases {
        let done = control_reply(control, true);
        assert_eq!(done.text, text);
        assert!(!done.ephemeral);
        let refused = control_reply(control, false);
        assert_eq!(refused.text, "Not in a voice channel");
        assert!(refused.ephemeral);
    }
}

#[test]
fn answers_to_loop_requests() {
    for state in [LoopState::Loop, LoopState::NoLoop] {
        for playing in [false, true] {
            let reply = loop_reply(state, false, playing);
            assert_eq!(reply.text, "Not in a voice channel");
            assert!(reply.ephemeral);
        }
        let reply = loop_reply(state, true, false);
        assert_eq!(reply.text, "Nothing is playing");
        assert!(reply.ephemeral);
    }
    let reply = loop_reply(LoopState::Loop, true, true);
    assert_eq!(reply.text, "Enabled loop");
    assert!(!reply.ephemeral);
    let reply = loop_reply(LoopState::NoLoop, true, true);
    assert_eq!(reply.text, "Disabled loop");
    assert!(!reply.ephemeral);
}

#[test]
fn refusals_to_show_the_playing_track() {
    assert!(now_playing_refusal(true, true, true).is_none());
    let reply = now_playing_refusal(false, true, true).unwrap();
    assert_eq!(reply.text, "Not in a voice channel");
    assert!(reply.ephemeral);
    let reply = now_playing_refusal(true, false, true).unwrap();
    assert_eq!(reply.text, "Nothing is playing right now");
    assert!(reply.ephemeral);
    let reply = now_playing_refusal(true, true, false).unwrap();
    assert_eq!(reply.text, "Oops something went wrong...");
    assert!(reply.ephemeral);
}

#[test]
fn refusals_to_list_the_queue() {
    assert!(queue_refusal(true, 1).is_none());
    let reply = queue_refusal(false, 3).unwrap();
    assert_eq!(reply.text, "Not in a voice channel");
    assert!(reply.ephemeral);
    let reply = queue_refusal(true, 0).unwrap();
    assert_eq!(reply.text, "Nothing is in the queue");
    assert!(reply.ephemeral);
}
