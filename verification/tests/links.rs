use termtastic::links::{hyperlinked_line, hyperlinked_lines, paste_lines, LinkSegment};

fn seg(text: &str, link: bool) -> LinkSegment {
    LinkSegment { text: text.to_string(), link }
}

#[test]
fn links_are_marked_within_a_line() {
    assert_eq!(
        hyperlinked_line("see https://example.com/x now"),
        vec![seg("see ", false), seg("https://example.com/x ", true), seg("now", false)]
    );
    assert_eq!(hyperlinked_line("https://a.b"), vec![seg("https://a.b", true)]);
    assert_eq!(hyperlinked_line("no link here"), vec![seg("no link here", false)]);
    assert_eq!(hyperlinked_line(""), Vec::<LinkSegment>::new());
}

#[test]
fn two_links_and_unicode_text() {
    let segs = hyperlinked_line("ä http://x.y, ü ftp://q.r");
    assert_eq!(
        segs,
        vec![seg("ä ", false), seg("http://x.y, ", true), seg("ü ", false), seg("ftp://q.r", true)]
    );
    let joined: String = segs.iter().map(|s| s.text.as_str()).collect();
    assert_eq!(joined, "ä http://x.y, ü ftp://q.r");
}

#[test]
fn message_lines_split_at_newlines() {
    let lines = hyperlinked_lines("hello\nhttps://m.sh\n");
    assert_eq!(lines.len(), 3);
    assert_eq!(lines[0], vec![seg("hello", false)]);
    assert_eq!(lines[1], vec![seg("https://m.sh", true)]);
    assert!(lines[2].is_empty());
}

#[test]
fn pasted_text_becomes_trimmed_lines() {
    assert_eq!(paste_lines("one  \r\ntwo\rthree\n\n"), vec!["one", "two", "three"]);
    assert_eq!(paste_lines("a\r\r\nb"), vec!["a", "", "b"]);
    assert_eq!(paste_lines("   "), Vec::<String>::new());
    assert_eq!(paste_lines(""), Vec::<String>::new());
}
