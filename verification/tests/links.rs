use ytdlp_gui::links::{count_leading_urls, read_links};

fn strings(list: &[&str]) -> Vec<String> {
    list.iter().map(|s| s.to_string()).collect()
}

#[test]
fn links_are_read_from_a_request() {
    assert_eq!(
        read_links("  https://a.example/1 https://b.example/2\n"),
        strings(&["https://a.example/1", "https://b.example/2"])
    );
    assert_eq!(read_links("https://a.example  x"), strings(&["https://a.example", "", "x"]));
    assert_eq!(read_links(" \t "), strings(&[""]));
    assert_eq!(read_links(""), strings(&[""]));
}

#[test]
fn leading_urls_are_counted() {
    let url = "https://www.youtube.com/watch?v=abc";
    assert_eq!(count_leading_urls(&strings(&[])), 0);
    assert_eq!(count_leading_urls(&strings(&[""])), 0);
    assert_eq!(count_leading_urls(&strings(&[url])), 1);
    assert_eq!(count_leading_urls(&strings(&[url, url, url])), 3);
    assert_eq!(count_leading_urls(&strings(&[url, "nonsense", url])), 1);
    assert_eq!(count_leading_urls(&strings(&["www.youtube.com/watch", url])), 0);
}

#[test]
fn a_url_needs_a_scheme_that_parses() {
    assert_eq!(count_leading_urls(&strings(&["mailto:someone"])), 1);
    assert_eq!(count_leading_urls(&strings(&["1http://a.example"])), 0);
    assert_eq!(count_leading_urls(&strings(&[":"])), 0);
    assert_eq!(count_leading_urls(&strings(&["https://"])), 0);
    assert_eq!(count_leading_urls(&strings(&["https://a.example:port"])), 0);
}
