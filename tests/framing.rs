use abevbot::frame::FrameReader;

fn feed_all(chunks: &[&[u8]]) -> Vec<String> {
    let mut reader = FrameReader::new();
    let mut out = Vec::new();
    for c in chunks {
        out.extend(reader.feed(c));
    }
    out
}

#[test]
fn whole_stream_in_one_read() {
    let frames = feed_all(&[b"PING :a\r\n@id=1 :x!x@x.tmi.twitch.tv PRIVMSG #c :hi\r\n"]);
    assert_eq!(frames, vec!["PING :a".to_string(), "@id=1 :x!x@x.tmi.twitch.tv PRIVMSG #c :hi".to_string()]);
}

#[test]
fn one_byte_at_a_time_gives_the_same_frames() {
    let stream: &[u8] = b"first\r\nsecond\r\n\r\nthird\r\n";
    let chunks: Vec<&[u8]> = stream.chunks(1).collect();
    let frames = feed_all(&chunks);
    assert_eq!(frames, vec!["first", "second", "", "third"]);
}

#[test]
fn terminator_split_across_reads() {
    let frames = feed_all(&[b"abc\r", b"\ndef\r", b"\n"]);
    assert_eq!(frames, vec!["abc", "def"]);
}

#[test]
fn partial_frame_is_kept_for_the_next_read() {
    let mut reader = FrameReader::new();
    assert!(reader.feed(b"PRIVMSG #c :hel").is_empty());
    assert_eq!(reader.feed(b"lo\r\nnext"), vec!["PRIVMSG #c :hello"]);
    assert_eq!(reader.feed(b"\r\n"), vec!["next"]);
}

#[test]
fn empty_read_yields_no_frame() {
    let mut reader = FrameReader::new();
    assert!(reader.feed(b"").is_empty());
    assert!(reader.feed(b"half").is_empty());
    assert!(reader.feed(b"").is_empty());
}

#[test]
fn invalid_bytes_are_replaced_not_fatal() {
    let frames = feed_all(&[b"ok \xff\xfe end\r\n"]);
    assert_eq!(frames, vec!["ok \u{FFFD}\u{FFFD} end"]);
}

#[test]
fn multibyte_character_split_across_reads_survives() {
    let text = "zaż\u{f3}łć\r\n".as_bytes().to_vec();
    let (a, b) = text.split_at(3);
    let frames = feed_all(&[a, b]);
    assert_eq!(frames, vec!["zaż\u{f3}łć"]);
}
