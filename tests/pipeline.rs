use mdsite::cache::{Cache, FingerprintTable, UrlCache, UrlTable};
use mdsite::contents::{get_md_data, read_document, Content, ContentMeta, ContentsError, Date};
use mdsite::hash::get_hash;
use mdsite::markdown::{autolink_fragment, link_card_html, links_to_resolve, render_body};
use mdsite::pipeline::{needs_build, next_fingerprints, DocOutcome, SourceDocument};
use mdsite::text::{collapse_lines, is_marker_line, split_front_matter, strip_local_prefix, trim_end_slashes};

fn doc(title: &str, slug: &str, date: &str, body: &str) -> String {
    format!("---\ntitle: {}\nslug: {}\ndate: {}\ntags:\n  - a\n  - b\n---\n{}", title, slug, date, body)
}

fn entry(url: &str, title: &str, description: Option<&str>) -> UrlCache {
    UrlCache {
        url: url.to_string(),
        title: title.to_string(),
        description: description.map(|d| d.to_string()),
        image: None,
        favicon: None,
    }
}

fn build(text: &str, table: &UrlTable) -> Result<Content, ContentsError> {
    get_md_data(text, table)
}

#[test]
fn fingerprint_is_repeatable() {
    assert_eq!(get_hash("hello"), get_hash("hello"));
    assert_eq!(get_hash("hello").len(), 32);
}

#[test]
fn fingerprint_changes_with_one_byte() {
    assert_ne!(get_hash("hello"), get_hash("hellp"));
    assert_ne!(get_hash(""), get_hash(" "));
}

#[test]
fn fingerprint_of_abc_is_sha256() {
    let h = get_hash("abc");
    let hex: String = h.iter().map(|b| format!("{:02x}", b)).collect();
    assert_eq!(hex, "ba7816bf8f01cfea414140de5dae2223b00361a396177a9cb410ff61f20015ad");
}

#[test]
fn front_matter_is_split_at_second_marker() {
    let (front, body) = split_front_matter("---\ntitle: x\n---\nhello\n---\nworld").unwrap();
    assert_eq!(front, "title: x\n");
    assert_eq!(body, "hello\n---\nworld\n");
}

#[test]
fn lines_before_first_delimiter_are_ignored() {
    let (front, body) = split_front_matter("junk\n---\na: 1\n---\nb").unwrap();
    assert_eq!(front, "a: 1\n");
    assert_eq!(body, "b\n");
}

#[test]
fn document_without_two_delimiters_has_no_front_matter() {
    assert!(split_front_matter("a\nb").is_none());
    assert!(split_front_matter("---\na: 1\nb").is_none());
    let table = UrlTable::new();
    assert_eq!(get_md_data("---\ntitle: T\nslug: s\ndate: 2024/01/02\ntags: []\n", &table).err(), Some(ContentsError::MdParse));
}

#[test]
fn delimiter_lines_are_three_dashes() {
    assert!(is_marker_line("---"));
    assert!(!is_marker_line("x--"));
    assert!(!is_marker_line("----"));
    assert!(!is_marker_line("--"));
}

#[test]
fn collapse_trims_and_joins_lines() {
    assert_eq!(collapse_lines("  <p>\n    hi  \n</p>  "), "<p>hi</p>");
    assert_eq!(collapse_lines(""), "");
    assert_eq!(collapse_lines("a\n\nb\n"), "ab");
    assert_eq!(collapse_lines("\u{3000}x\u{a0}\t\n y"), "xy");
}

#[test]
fn trailing_slashes_are_removed() {
    assert_eq!(trim_end_slashes("dist///"), "dist");
    assert_eq!(trim_end_slashes("dist"), "dist");
    assert_eq!(trim_end_slashes("/"), "");
}

#[test]
fn local_prefix_is_removed() {
    assert_eq!(strip_local_prefix("./img/a.png"), "img/a.png");
    assert_eq!(strip_local_prefix("img/a.png"), "img/a.png");
}

#[test]
fn slug_and_date_give_output_path_and_date_text() {
    let table = UrlTable::new();
    let c = build(&doc("Hello World", "foo", "2024/01/02", "Some *text*.\n"), &table).unwrap();
    assert_eq!(c.meta.slug, "foo");
    assert_eq!(c.meta.title, "Hello World");
    assert_eq!(c.meta.tags, vec!["a", "b"]);
    assert_eq!((c.meta.date.year, c.meta.date.month, c.meta.date.day), (2024, 1, 2));
    let page = c.build_md("src", "dist/").unwrap();
    assert_eq!(page.dir, "dist/foo");
    assert_eq!(page.index_path, "dist/foo/index.html");
    assert!(page.html.contains("<title>Hello World</title>"));
    assert!(page.html.contains("2024/01/02"));
    assert!(page.html.contains("<em>text</em>"));
    assert!(!page.html.contains('\n'));
    assert_eq!(page.hash, get_hash(&page.html));
}

#[test]
fn autolink_without_metadata_is_plain_anchor() {
    let table = UrlTable::new();
    let c = build(&doc("T", "s", "2024/01/02", "see <https://example.com/x>\n"), &table).unwrap();
    assert!(c.content.contains("<a href=\"https://example.com/x\">https://example.com/x</a>"));
    assert_eq!(c.content.matches("https://example.com/x").count(), 2);
    assert_eq!(c.content.matches("</a>").count(), 1);
}

#[test]
fn autolink_with_metadata_is_link_card() {
    let mut table = UrlTable::new();
    table.insert(entry("https://example.com/x", "T", Some("D")));
    let c = build(&doc("Title", "s", "2024/01/02", "<https://example.com/x>\n\nhttps://example.com/x\n"), &table).unwrap();
    assert!(c.content.contains("link_card"));
    assert!(c.content.contains(">T<"));
    assert!(c.content.contains(">D<"));
    assert_eq!(c.content.matches("https://example.com/x").count(), 1);
    assert!(c.content.contains("href=\"https://example.com/x\""));
}

#[test]
fn link_card_holds_favicon_and_image() {
    let mut e = entry("https://e.org", "Title", None);
    e.favicon = Some("https://e.org/f.ico".to_string());
    e.image = Some("https://e.org/i.png".to_string());
    let html = link_card_html(&e);
    assert!(html.contains("<img class=\"link_card_favicon\" src=\"https://e.org/f.ico\" />"));
    assert!(html.contains("<img class=\"link_card_image\" src=\"https://e.org/i.png\" />"));
    assert!(html.contains("<div class=\"link_card_description\"></div>"));
}

#[test]
fn fragment_without_metadata_is_anchor() {
    let table = UrlTable::new();
    let html = autolink_fragment(&"https://a.b".to_string(), &table);
    assert_eq!(html, "<a href=\"https://a.b\">https://a.b</a>");
}

#[test]
fn malformed_date_is_rejected() {
    let table = UrlTable::new();
    let r = build(&doc("T", "foo", "2024-01-02", "x\n"), &table);
    assert_eq!(r.err(), Some(ContentsError::MdParse));
}

#[test]
fn missing_field_and_empty_slug_are_rejected() {
    let table = UrlTable::new();
    let r = get_md_data("---\ntitle: T\nslug: s\ntags: []\n---\nbody\n", &table);
    assert_eq!(r.err(), Some(ContentsError::MdParse));
    let r = get_md_data("---\ntitle: T\nslug: \"\"\ndate: 2024/01/02\ntags: []\n---\nbody\n", &table);
    assert_eq!(r.err(), Some(ContentsError::MdParse));
}

#[test]
fn links_are_collected_once_and_only_when_unknown() {
    let mut table = UrlTable::new();
    let text = "<https://a.org> <https://b.org> <https://a.org> [x](https://c.org)";
    let mut urls = links_to_resolve(text, &table);
    urls.sort();
    assert_eq!(urls, vec!["https://a.org", "https://b.org"]);
    table.insert(entry("https://a.org", "A", None));
    assert_eq!(links_to_resolve(text, &table), vec!["https://b.org"]);
}

#[test]
fn local_images_are_collected_and_copied() {
    let table = UrlTable::new();
    let r = render_body("![a](./img/a.png) ![b](https://x.org/b.png) ![c](./img/a.png)", &table);
    assert_eq!(r.images, vec!["./img/a.png"]);
    assert!(r.html.contains("src=\"./img/a.png\""));
    let c = build(&doc("T", "post", "2024/01/02", "![a](./img/a.png)\n"), &table).unwrap();
    let page = c.build_md("src/", "dist").unwrap();
    assert_eq!(page.copies, vec![("src/post/img/a.png".to_string(), "dist/post/img/a.png".to_string())]);
}

#[test]
fn url_table_latest_entry_wins() {
    let mut table = UrlTable::new();
    assert!(table.get(&"u".to_string()).is_none());
    table.insert(entry("u", "one", None));
    table.insert(entry("v", "two", None));
    table.insert(entry("u", "three", None));
    assert_eq!(table.get(&"u".to_string()).unwrap().title, "three");
    assert_eq!(table.get(&"v".to_string()).unwrap().title, "two");
    assert!(table.contains(&"v".to_string()));
    assert!(!table.contains(&"w".to_string()));
}

#[test]
fn unchanged_sources_are_skipped_on_second_run() {
    let docs = vec![
        SourceDocument::new("a.md".to_string(), "one".to_string()),
        SourceDocument::new("b.md".to_string(), "two".to_string()),
    ];
    let first = Cache::empty();
    for d in &docs {
        assert!(needs_build(&first.contents, &d.path, &d.fingerprint));
    }
    let next = next_fingerprints(&docs, &vec![DocOutcome::Built, DocOutcome::Built]);
    for d in &docs {
        assert!(!needs_build(&next, &d.path, &d.fingerprint));
    }
    let changed = SourceDocument::new("a.md".to_string(), "one!".to_string());
    assert!(needs_build(&next, &changed.path, &changed.fingerprint));
}

#[test]
fn failed_documents_are_not_recorded() {
    let docs = vec![
        SourceDocument::new("a.md".to_string(), "one".to_string()),
        SourceDocument::new("b.md".to_string(), "two".to_string()),
        SourceDocument::new("c.md".to_string(), "three".to_string()),
    ];
    let next = next_fingerprints(&docs, &vec![DocOutcome::Skipped, DocOutcome::Failed, DocOutcome::Built]);
    assert!(!needs_build(&next, &docs[0].path, &docs[0].fingerprint));
    assert!(needs_build(&next, &docs[1].path, &docs[1].fingerprint));
    assert!(!needs_build(&next, &docs[2].path, &docs[2].fingerprint));
    let mut t = FingerprintTable::new();
    t.insert("p".to_string(), vec![1, 2]);
    assert_eq!(t.get(&"p".to_string()), Some(&vec![1, 2]));
}

#[test]
fn error_messages_name_the_variant() {
    assert_eq!(ContentsError::FileRead.message(), "ContentsError::FileRead");
    assert_eq!(ContentsError::FileWrite.message(), "ContentsError::FileWrite");
    assert_eq!(ContentsError::MdParse.message(), "ContentsError::MdParse");
    assert_eq!(ContentsError::FetchOgpError.message(), "ContentsError::FetchOgpError");
    assert_eq!(ContentsError::OtherBuild.message(), "ContentsError::OtherBuild");
}

#[test]
fn scalar_fields_are_read_as_text() {
    let table = UrlTable::new();
    let c = get_md_data("---\ntitle: true\nslug: 2024\ndate: 2024/01/02\ntags: [1, x]\n---\nbody\n", &table).unwrap();
    assert_eq!(c.meta.title, "true");
    assert_eq!(c.meta.slug, "2024");
    assert_eq!(c.meta.tags, vec!["1", "x"]);
}

#[test]
fn read_document_checks_front_matter_first() {
    let d = read_document("---\ntitle: T\nslug: s\ndate: 2024/12/31\ntags: []\n---\nhi").unwrap();
    assert_eq!(d.body, "hi\n");
    assert_eq!(d.date, Date::new(2024, 12, 31).unwrap());
    assert_eq!(read_document("---\ntitle: T\nslug: s\ndate: 2024/02/30\ntags: []\n---\nhi").err(), Some(ContentsError::MdParse));
}

#[test]
fn dates_follow_the_calendar() {
    assert!(Date::new(2024, 2, 29).is_some());
    assert!(Date::new(2023, 2, 29).is_none());
    assert!(Date::new(1900, 2, 29).is_none());
    assert!(Date::new(2000, 2, 29).is_some());
    assert!(Date::new(2024, 4, 31).is_none());
    assert!(Date::new(2024, 13, 1).is_none());
    assert!(Date::new(2024, 1, 0).is_none());
    assert!(Date::new(300000, 1, 1).is_none());
}

#[test]
fn real_date_builds_and_trailing_slash_is_ignored() {
    let make = || Content {
        meta: ContentMeta {
            title: "Hello".to_string(),
            slug: "foo".to_string(),
            date: Date::new(2024, 1, 2).unwrap(),
            tags: vec![],
            images: vec![],
        },
        content: "<p>body</p>\n".to_string(),
    };
    let a = make().build_md("src", "out/").unwrap();
    let b = make().build_md("src/", "out").unwrap();
    assert_eq!(a.index_path, "out/foo/index.html");
    assert_eq!(a.index_path, b.index_path);
    assert_eq!(a.html, b.html);
    assert_eq!(a.hash, b.hash);
    assert!(a.html.contains("<time class=\"date\">2024/01/02</time>"));
    assert!(a.html.contains("<h1 class=\"title\">Hello</h1>"));
    let early = Content {
        meta: ContentMeta { date: Date::new(5, 3, 4).unwrap(), ..make().meta },
        content: String::new(),
    };
    assert!(early.build_md("src", "out").unwrap().html.contains("0005/03/04"));
}
