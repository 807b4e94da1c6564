use pastpapers::discover::discover_links;
use pastpapers::errors::DownloadError;
use pastpapers::naming::{year_to_string, year_to_url};

#[test]
fn identical_hrefs_under_two_paragraphs_appear_once() {
    let html = "<html><body>\
        <p><a href=\"COMP401.pdf\">first</a></p>\
        <p><a href=\"COMP401.pdf\">second</a></p>\
        </body></html>";
    let base = "https://exams.example/papers.19-20/";
    let links = discover_links(html, "COMP4", base).unwrap();
    assert_eq!(links, vec!["https://exams.example/papers.19-20/COMP401.pdf".to_string()]);
}

#[test]
fn anchors_outside_paragraphs_are_excluded() {
    let html = "<html><body>\
        <a href=\"COMP499.pdf\">stray</a>\
        <div><a href=\"COMP498.pdf\">stray too</a></div>\
        <p><a href=\"COMP401.pdf\">kept</a></p>\
        </body></html>";
    let base = "https://exams.example/papers.19-20/";
    let links = discover_links(html, "COMP4", base).unwrap();
    assert_eq!(links, vec!["https://exams.example/papers.19-20/COMP401.pdf".to_string()]);
}

#[test]
fn an_anchor_without_href_is_a_malformed_page() {
    let html = "<html><body>\
        <p><a href=\"COMP401.pdf\">fine</a></p>\
        <p><a>broken</a></p>\
        </body></html>";
    let r = discover_links(html, "COMP4", "https://exams.example/");
    assert_eq!(r, Err(DownloadError::MalformedPage));
}

#[test]
fn no_matching_anchor_is_an_empty_result_not_an_error() {
    let html = "<html><body><p><a href=\"other.txt\">misc</a></p></body></html>";
    let links = discover_links(html, "COMP4", "https://exams.example/").unwrap();
    assert!(links.is_empty());
}

#[test]
fn hrefs_not_carrying_the_prefix_are_filtered_out() {
    let html = "<html><body>\
        <p><a href=\"COMP501.pdf\">wrong group</a></p>\
        <p><a href=\"C140.pdf\">old scheme</a></p>\
        <p><a href=\"COMP402.pdf\">kept</a></p>\
        </body></html>";
    let links = discover_links(html, "COMP4", "base/").unwrap();
    assert_eq!(links, vec!["base/COMP402.pdf".to_string()]);
}

#[test]
fn discovery_for_year_2020_keeps_both_matching_documents() {
    let html = "<html><body>\
        <p><a href=\"COMP401.pdf\">one</a></p>\
        <p><a href=\"COMP402.pdf\">two</a></p>\
        <p><a href=\"other.txt\">misc</a></p>\
        </body></html>";
    let base = year_to_url(2020);
    let links = discover_links(html, "COMP4", &base).unwrap();
    let expected = vec![
        format!("{base}COMP401.pdf"),
        format!("{base}COMP402.pdf"),
    ];
    assert_eq!(links, expected);
    assert_eq!(year_to_string(2020), "19-20");
}
