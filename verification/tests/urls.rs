use soql_studio::socrata::{make_analyze_url, make_query, sanitize};

#[test]
fn sanitize_mixed_whitespace() {
    assert_eq!(sanitize("SELECT *\n\tWHERE   x"), "SELECT * WHERE x");
}

#[test]
fn sanitize_removes_tabs() {
    assert_eq!(sanitize("a\tb"), "ab");
    assert_eq!(sanitize("a \t b"), "a b");
}

#[test]
fn sanitize_trims_and_collapses() {
    assert_eq!(sanitize("  select  a,\n b   "), "select a, b");
    assert_eq!(sanitize(""), "");
    assert_eq!(sanitize("   "), "");
    assert_eq!(sanitize("\n\n"), "");
}

#[test]
fn sanitize_handles_unicode_whitespace() {
    assert_eq!(sanitize("a\u{a0}b"), "a b");
    assert_eq!(sanitize("a\r\nb"), "a b");
}

#[test]
fn sanitize_output_is_clean() {
    let samples = [
        "SELECT *\n\tWHERE   x",
        "  \t mixed \n\n whitespace \t everywhere \r\n ",
        "\tleading and trailing\t",
        "no_whitespace_at_all",
    ];
    for q in samples {
        let s = sanitize(q);
        assert!(!s.contains('\n'));
        assert!(!s.contains('\t'));
        assert!(!s.contains("  "));
        assert_eq!(s.trim(), s);
    }
}

#[test]
fn make_query_builds_resource_url() {
    let url = make_query("data.example.org", "abcd-1234", "select *\n limit  5");
    assert_eq!(
        url,
        "https://data.example.org/resource/abcd-1234.csv?$query=select * limit 5"
    );
}

#[test]
fn make_analyze_url_builds_query_info_url() {
    let url = make_analyze_url("data.example.org", "abcd-1234", "select\t1");
    assert_eq!(
        url,
        "https://data.example.org/api/views/abcd-1234/query_info?analyze=true&query=select1"
    );
}
