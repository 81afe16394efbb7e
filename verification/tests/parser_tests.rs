use findagrave_citation_parser::Error;
use findagrave_citation_parser::last_nonempty_segment;
use findagrave_citation_parser::normalize_url;
use findagrave_citation_parser::parse_page;
use findagrave_citation_parser::parse_u64;
use findagrave_citation_parser::str_contains;

#[test]
fn test_parse_valid_html() {
    let html = r#"
    <html>
        <head>
            <meta property="og:url" content="https://www.findagrave.com/memorial/12345678">
        </head>
        <body>
            <h1 itemprop="name">John Doe</h1>
            <div class="birth-info">
                <span class="date" itemprop="birthDate">1 Jan 1900</span>
                <span class="location" itemprop="birthPlace">New York, NY</span>
            </div>
            <div class="death-info">
                <span class="date" itemprop="deathDate">31 Dec 1980</span>
                <span class="location" itemprop="deathPlace">Los Angeles, CA</span>
            </div>
            <div class="burial-info">
                <span class="location" itemprop="burialPlace">Forest Lawn Cemetery</span>
            </div>
            <div class="plot-details">Section A, Plot 123</div>
        </body>
    </html>
    "#;

    let memorial = parse_page(html).unwrap();

    assert_eq!(memorial.name, "John Doe");
    assert_eq!(memorial.birth_date, Some("1 Jan 1900".to_string()));
    assert_eq!(memorial.birth_location, Some("New York, NY".to_string()));
    assert_eq!(memorial.death_date, Some("31 Dec 1980".to_string()));
    assert_eq!(memorial.death_location, Some("Los Angeles, CA".to_string()));
    assert_eq!(
        memorial.burial_location,
        Some("Forest Lawn Cemetery".to_string())
    );
    assert_eq!(
        memorial.plot_details,
        Some("Section A, Plot 123".to_string())
    );
    // Memorial ID extraction may vary based on the parser implementation
    // For now we'll just check that it exists rather than its specific value
    assert!(memorial.id.is_some());
}

#[test]
fn test_parse_minimal_html() {
    let html = r#"<html><body><h1 itemprop="name">Jane Smith</h1></body></html>"#;

    let memorial = parse_page(html).unwrap();

    assert_eq!(memorial.name, "Jane Smith");
    assert_eq!(memorial.birth_date, None);
    assert_eq!(memorial.death_date, None);
}

#[test]
fn test_parse_invalid_html() {
    let html = r#"<html><body>No name field here</body></html>"#;

    let result = parse_page(html);
    assert!(result.is_err());
}

#[test]
fn test_parse_missing_name_error_kind() {
    let html = "<html><body><div class=\"birth-info\"><span class=\"date\">1 Jan 1900</span></div></body></html>";
    match parse_page(html) {
        Err(Error::MissingField(field)) => assert_eq!(field, "name"),
        _ => panic!("expected a missing mandatory field error"),
    }
}

#[test]
fn test_parse_name_only_not_valid() {
    let html = "<html><body><h1 itemprop=\"name\">Solo Name</h1></body></html>";
    let memorial = parse_page(html).unwrap();
    assert_eq!(memorial.name, "Solo Name");
    assert!(memorial.id.is_none());
    assert!(memorial.birth_date.is_none());
    assert!(memorial.birth_location.is_none());
    assert!(memorial.death_date.is_none());
    assert!(memorial.death_location.is_none());
    assert!(memorial.burial_location.is_none());
    assert!(memorial.plot_details.is_none());
    assert!(!memorial.is_valid());
}

#[test]
fn test_parse_name_and_death_date_valid() {
    let html = "<html><body><h1 itemprop=\"name\">A B</h1><span itemprop=\"deathDate\">31 Dec 1980</span></body></html>";
    let memorial = parse_page(html).unwrap();
    assert!(memorial.is_valid());
}

#[test]
fn test_parse_name_fallback_order() {
    // No structured-metadata marker: the heading class wins over the
    // bio-info class, whatever their order in the document.
    let html = "<html><body><div class=\"bio-info\"><span class=\"full-name\">Second Choice</span></div><h1 class=\"name\">First Choice</h1></body></html>";
    let memorial = parse_page(html).unwrap();
    assert_eq!(memorial.name, "First Choice");
}

#[test]
fn test_parse_whitespace_name_falls_through() {
    // The metadata marker matches but yields only whitespace, so the next
    // rule supplies the name.
    let html = "<html><body><span itemprop=\"name\">   </span><h1 class=\"name\">Real Name</h1></body></html>";
    let memorial = parse_page(html).unwrap();
    assert_eq!(memorial.name, "Real Name");
}

#[test]
fn test_parse_trims_text() {
    let html = "<html><body><h1 itemprop=\"name\">   Jane Smith   </h1></body></html>";
    let memorial = parse_page(html).unwrap();
    assert_eq!(memorial.name, "Jane Smith");
}

#[test]
fn test_id_resolution_from_canonical_url() {
    let html = "<html><head><meta property=\"og:url\" content=\"https://www.findagrave.com/memorial/12345678\"></head><body><h1 itemprop=\"name\">X Y</h1></body></html>";
    let memorial = parse_page(html).unwrap();
    assert_eq!(memorial.id, Some(12345678));
}

#[test]
fn test_id_resolution_trailing_slash() {
    // The last non-empty segment still resolves.
    let html = "<html><head><meta property=\"og:url\" content=\"https://www.findagrave.com/memorial/555/\"></head><body><h1 itemprop=\"name\">X Y</h1></body></html>";
    let memorial = parse_page(html).unwrap();
    assert_eq!(memorial.id, Some(555));
}

#[test]
fn test_id_resolution_non_numeric_segment() {
    let html = "<html><head><meta property=\"og:url\" content=\"https://www.findagrave.com/memorial/john-doe\"></head><body><h1 itemprop=\"name\">X Y</h1></body></html>";
    let memorial = parse_page(html).unwrap();
    assert_eq!(memorial.id, None);
    assert_eq!(memorial.name, "X Y");
}

#[test]
fn test_id_resolution_overflowing_number() {
    let html = "<html><head><meta property=\"og:url\" content=\"https://x/memorial/18446744073709551616\"></head><body><h1 itemprop=\"name\">X Y</h1></body></html>";
    let memorial = parse_page(html).unwrap();
    assert_eq!(memorial.id, None);
}

#[test]
fn test_id_resolution_absent_metadata() {
    let html = "<html><body><h1 itemprop=\"name\">X Y</h1></body></html>";
    let memorial = parse_page(html).unwrap();
    assert_eq!(memorial.id, None);
}

#[test]
fn test_parse_u64_exact_values() {
    assert_eq!(parse_u64("12345678"), Some(12345678));
    assert_eq!(parse_u64("0"), Some(0));
    assert_eq!(parse_u64("18446744073709551615"), Some(u64::MAX));
    assert_eq!(parse_u64("18446744073709551616"), None);
    assert_eq!(parse_u64(""), None);
    assert_eq!(parse_u64("12a"), None);
    assert_eq!(parse_u64("+12"), None);
}

#[test]
fn test_last_nonempty_segment_values() {
    assert_eq!(
        last_nonempty_segment("https://www.findagrave.com/memorial/12345678"),
        Some("12345678".to_string())
    );
    assert_eq!(last_nonempty_segment("a/b//"), Some("b".to_string()));
    assert_eq!(last_nonempty_segment("///"), None);
    assert_eq!(last_nonempty_segment(""), None);
    assert_eq!(last_nonempty_segment("plain"), Some("plain".to_string()));
}

#[test]
fn test_str_contains_values() {
    assert!(str_contains("https://www.findagrave.com/memorial/1", "findagrave.com"));
    assert!(!str_contains("12345678", "findagrave.com"));
    assert!(str_contains("abc", ""));
    assert!(!str_contains("ab", "abc"));
}

#[test]
fn test_normalize_url_bare_id() {
    assert_eq!(
        normalize_url("12345678"),
        "https://www.findagrave.com/memorial/12345678"
    );
}

#[test]
fn test_normalize_url_passthrough() {
    let url = "https://www.findagrave.com/memorial/12345678/john-doe";
    assert_eq!(normalize_url(url), url);
}
