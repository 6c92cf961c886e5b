use scholar::{collect_results, scrape_serialize, BlockFields, ScholarResult};

const PAGE: &str = r#"<html><body>
<div class="gs_r">
  <div class="gs_ri">
    <h3 class="gs_rt"><a href="https://example.org/one">Deep <b>Learning</b></a></h3>
    <div class="gs_a">A. Author, B. Author - Nature, 2015</div>
    <div class="gs_rs">Deep learning allows <b>models</b> to learn.</div>
  </div>
</div>
<div class="gs_ri">
  <h3 class="gs_rt">No link here</h3>
  <div class="gs_a">C. Author</div>
  <div class="gs_rs">Missing its link.</div>
</div>
<div class="gs_ri">
  <h3 class="gs_rt"><a href="https://example.org/three">Without abstract</a></h3>
  <div class="gs_a">D. Author</div>
</div>
<div class="gs_ri">
  <div class="gs_a">E. Author</div>
  <a href="https://example.org/first">first</a>
  <h3 class="gs_rt"><a href="https://example.org/second">Second anchor</a></h3>
  <div class="gs_rs">Link is the first anchor.</div>
  <div class="gs_a">F. Author</div>
</div>
</body></html>"#;

fn fields(title: Option<&str>, link: Option<&str>, abs: Option<&str>, author: Option<&str>) -> BlockFields {
    BlockFields {
        title: title.map(String::from),
        link: link.map(String::from),
        abs: abs.map(String::from),
        author: author.map(String::from),
    }
}

fn check(r: &ScholarResult, title: &str, author: &str, abs: &str, link: &str) {
    assert_eq!(r.title, title);
    assert_eq!(r.author, author);
    assert_eq!(r.abs, abs);
    assert_eq!(r.link, link);
}

#[test]
fn incomplete_blocks_are_skipped() {
    let res = scrape_serialize(String::from(PAGE)).ok().unwrap();
    assert_eq!(res.len(), 2);
    check(
        &res[0],
        "Deep Learning",
        "A. Author, B. Author - Nature, 2015",
        "Deep learning allows models to learn.",
        "https://example.org/one",
    );
    check(
        &res[1],
        "Second anchor",
        "E. Author",
        "Link is the first anchor.",
        "https://example.org/first",
    );
}

#[test]
fn page_without_blocks_gives_no_results() {
    let res = scrape_serialize(String::from("<html><body><p class=\"gs_rt\">x</p></body></html>"));
    assert_eq!(res.ok().unwrap().len(), 0);
    let empty = scrape_serialize(String::new());
    assert_eq!(empty.ok().unwrap().len(), 0);
}

#[test]
fn malformed_page_is_read_leniently() {
    let page = "<div class=\"gs_ri\"><h3 class=\"gs_rt\"><a href=\"/l\">T</h3><div class=\"gs_rs\">S<div class=\"gs_a\">A";
    let res = scrape_serialize(String::from(page)).ok().unwrap();
    assert_eq!(res.len(), 1);
    assert_eq!(res[0].title, "T");
    assert_eq!(res[0].link, "/l");
}

#[test]
fn extraction_is_repeatable() {
    let a = scrape_serialize(String::from(PAGE)).ok().unwrap();
    let b = scrape_serialize(String::from(PAGE)).ok().unwrap();
    assert_eq!(a.len(), b.len());
    for i in 0..a.len() {
        check(&b[i], &a[i].title, &a[i].author, &a[i].abs, &a[i].link);
    }
}

#[test]
fn collect_keeps_complete_blocks_in_order() {
    let blocks = vec![
        fields(Some("t1"), Some("l1"), Some("s1"), Some("a1")),
        fields(None, Some("l2"), Some("s2"), Some("a2")),
        fields(Some("t3"), None, Some("s3"), Some("a3")),
        fields(Some("t4"), Some("l4"), None, Some("a4")),
        fields(Some("t5"), Some("l5"), Some("s5"), None),
        fields(Some(""), Some("l6"), Some(""), Some("")),
    ];
    let res = collect_results(&blocks);
    assert_eq!(res.len(), 2);
    check(&res[0], "t1", "a1", "s1", "l1");
    check(&res[1], "", "", "", "l6");
}

#[test]
fn collect_of_no_blocks_is_empty() {
    assert_eq!(collect_results(&Vec::new()).len(), 0);
}
