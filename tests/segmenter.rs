use stream_gateway::SentenceSegmenter;

fn run(fragments: &[&str]) -> (Vec<String>, Option<String>) {
    let mut seg = SentenceSegmenter::new();
    let mut chunks = Vec::new();
    for f in fragments {
        if let Some(c) = seg.push(f) {
            chunks.push(c);
        }
    }
    let last = seg.flush();
    (chunks, last)
}

#[test]
fn push_whole_sentence_empties_buffer() {
    let mut seg = SentenceSegmenter::new();
    assert_eq!(seg.push("Hello world."), Some("Hello world.".to_string()));
    assert_eq!(seg.pending(), "");
}

#[test]
fn push_sentence_in_two_fragments() {
    let mut seg = SentenceSegmenter::new();
    assert_eq!(seg.push("Hello "), None);
    assert_eq!(seg.push("world."), Some("Hello world.".to_string()));
    assert_eq!(seg.pending(), "");
}

#[test]
fn long_fragment_without_mark_is_flushed() {
    let mut seg = SentenceSegmenter::new();
    let long = "a".repeat(201);
    assert_eq!(seg.push(&long), Some(long.clone()));
    assert_eq!(seg.pending(), "");
}

#[test]
fn fragment_at_threshold_is_kept() {
    let mut seg = SentenceSegmenter::new();
    let text = "b".repeat(200);
    assert_eq!(seg.push(&text), None);
    assert_eq!(seg.pending(), text);
    assert_eq!(seg.push("c"), Some(format!("{}c", text)));
}

#[test]
fn threshold_counts_characters_not_bytes() {
    let mut seg = SentenceSegmenter::new();
    let text = "ü".repeat(150);
    assert_eq!(seg.push(&text), None);
    assert_eq!(seg.pending(), text);
}

#[test]
fn flush_on_empty_buffer_is_none() {
    let mut seg = SentenceSegmenter::new();
    assert_eq!(seg.flush(), None);
}

#[test]
fn flush_on_whitespace_is_none_and_clears() {
    let mut seg = SentenceSegmenter::new();
    assert_eq!(seg.push(" \t\n\u{a0}\u{3000}"), None);
    assert_eq!(seg.flush(), None);
    assert_eq!(seg.pending(), "");
}

#[test]
fn flush_returns_remainder() {
    let mut seg = SentenceSegmenter::new();
    assert_eq!(seg.push("How are"), None);
    assert_eq!(seg.push(" you"), None);
    assert_eq!(seg.flush(), Some("How are you".to_string()));
    assert_eq!(seg.pending(), "");
    assert_eq!(seg.flush(), None);
}

#[test]
fn only_last_boundary_is_surfaced() {
    let mut seg = SentenceSegmenter::new();
    assert_eq!(seg.push("One. Two. Thr"), Some("One. Two.".to_string()));
    assert_eq!(seg.pending(), " Thr");
}

#[test]
fn every_terminal_mark_ends_a_chunk() {
    for mark in ["?", "!", ":", ";", "."] {
        let mut seg = SentenceSegmenter::new();
        let text = format!("Ready{}", mark);
        assert_eq!(seg.push(&format!("{} go", text)), Some(text));
        assert_eq!(seg.pending(), " go");
    }
}

#[test]
fn comma_is_not_a_boundary() {
    let mut seg = SentenceSegmenter::new();
    assert_eq!(seg.push("Well, then"), None);
}

#[test]
fn non_ascii_text_splits_on_characters() {
    let mut seg = SentenceSegmenter::new();
    assert_eq!(seg.push("Merhaba dünya! Nasılsın"), Some("Merhaba dünya!".to_string()));
    assert_eq!(seg.flush(), Some(" Nasılsın".to_string()));
}

#[test]
fn chunks_and_flush_cover_the_input() {
    let fragments = ["Merhaba", ", bugün ", "nasılsın? İyi", "yim. Sen", " de iyi ol", "!", " Gör", "üşürüz"];
    let (chunks, last) = run(&fragments);
    let mut joined: String = chunks.concat();
    joined.push_str(&last.unwrap_or_default());
    assert_eq!(joined, fragments.concat());
    assert_eq!(chunks, vec!["Merhaba, bugün nasılsın?", " İyiyim.", " Sen de iyi ol!"]);
}

#[test]
fn coverage_with_long_unpunctuated_run() {
    let big = "x".repeat(150);
    let fragments = [big.as_str(), big.as_str(), "end. tail"];
    let (chunks, last) = run(&fragments);
    assert_eq!(chunks.len(), 2);
    assert_eq!(chunks[0], "x".repeat(300));
    assert_eq!(chunks[1], "end.");
    assert_eq!(last, Some(" tail".to_string()));
}
