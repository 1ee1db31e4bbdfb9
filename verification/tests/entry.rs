use meshchat::entry::tokenize;

#[test]
fn test_empty_spans() {
    assert!(tokenize("").is_empty())
}

#[test]
fn test_text_link_spans() {
    let spans = tokenize("open this link https://example.com");
    assert_eq!(spans.len(), 2);
    assert!(spans[0].link.is_none());
    assert!(spans[1].link.is_some());
}

#[test]
fn test_text_link_text_spans() {
    let spans = tokenize("open this link https://example.com if you dare");
    assert_eq!(spans.len(), 3);
    assert!(spans[0].link.is_none());
    assert!(spans[1].link.is_some());
    assert!(spans[2].link.is_none());
}

#[test]
fn spans_join_back_to_the_message() {
    let message = "see http://a.b and https://c.d then httpx:no  end ";
    let spans = tokenize(message);
    let joined: String = spans.iter().map(|s| s.text.as_str()).collect();
    assert_eq!(joined, message);
    let links: Vec<&str> = spans.iter().filter_map(|s| s.link.as_deref()).collect();
    assert_eq!(links, vec!["http://a.b ", "https://c.d "]);
    for s in &spans {
        if let Some(l) = &s.link {
            assert_eq!(l, &s.text);
        }
    }
}

#[test]
fn adjacent_links_are_separate_spans() {
    let spans = tokenize("http://a https://b");
    assert_eq!(spans.len(), 2);
    assert_eq!(spans[0].text, "http://a ");
    assert_eq!(spans[1].text, "https://b");
    assert!(spans.iter().all(|s| s.link.is_some()));
}

#[test]
fn plain_text_is_one_span() {
    let spans = tokenize("no links here at all");
    assert_eq!(spans.len(), 1);
    assert_eq!(spans[0].text, "no links here at all");
    assert!(spans[0].link.is_none());
}
