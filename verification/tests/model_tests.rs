use findagrave_citation_parser::Config;
use findagrave_citation_parser::Error;
use findagrave_citation_parser::Memorial;

#[test]
fn test_memorial_new() {
    let memorial = Memorial::new();
    assert!(memorial.name.is_empty());
    assert!(memorial.birth_date.is_none());
}

#[test]
fn test_memorial_is_valid() {
    let mut memorial = Memorial::new();
    // Empty memorial isn't valid
    assert!(!memorial.is_valid());

    // With just a name, not valid
    memorial.name = "John Doe".to_string();
    assert!(!memorial.is_valid());

    // With name and birth date, valid
    memorial.birth_date = Some("1900-01-01".to_string());
    assert!(memorial.is_valid());
}

#[test]
fn test_memorial_to_citation() {
    let mut memorial = Memorial::new();
    memorial.name = "John Doe".to_string();
    memorial.birth_date = Some("January 1, 1900".to_string());
    memorial.birth_location = Some("Springfield, IL".to_string());

    let citation = memorial.to_citation();
    assert!(citation.contains("John Doe"));
    assert!(citation.contains("January 1, 1900"));
    assert!(citation.contains("Springfield, IL"));
}

#[test]
fn test_citation_full_record_exact() {
    let memorial = Memorial {
        id: Some(1),
        name: "John Doe".to_string(),
        birth_date: Some("1 Jan 1900".to_string()),
        birth_location: Some("New York, NY".to_string()),
        death_date: Some("31 Dec 1980".to_string()),
        death_location: Some("Los Angeles, CA".to_string()),
        burial_location: Some("Forest Lawn Cemetery".to_string()),
        plot_details: Some("Section A, Plot 123".to_string()),
    };
    assert_eq!(
        memorial.to_citation(),
        "Name: John Doe\nBirth: 1 Jan 1900, New York, NY\nDeath: 31 Dec 1980, Los Angeles, CA\nBurial: Forest Lawn Cemetery\nPlot: Section A, Plot 123"
    );
}

#[test]
fn test_citation_lines_follow_fields() {
    let mut memorial = Memorial::new();
    memorial.name = "Jane Roe".to_string();
    assert_eq!(memorial.to_citation(), "Name: Jane Roe");

    // A location without its date contributes no line.
    memorial.birth_location = Some("Springfield, IL".to_string());
    assert_eq!(memorial.to_citation(), "Name: Jane Roe");

    memorial.death_date = Some("2 Feb 1950".to_string());
    assert_eq!(memorial.to_citation(), "Name: Jane Roe\nDeath: 2 Feb 1950");

    memorial.plot_details = Some("Row 4".to_string());
    assert_eq!(memorial.to_citation(), "Name: Jane Roe\nDeath: 2 Feb 1950\nPlot: Row 4");
}

#[test]
fn test_config_default() {
    let config = Config::default();
    assert_eq!(config.timeout_secs, 10);
    assert_eq!(config.db_path, "memorials.db");
}

#[test]
fn test_config_usage() {
    let config = Config {
        user_agent: "test-agent".to_string(),
        timeout_secs: 30,
        db_path: "test.db".to_string(),
    };

    assert_eq!(config.user_agent, "test-agent");
    assert_eq!(config.timeout_secs, 30);
    assert_eq!(config.db_path, "test.db");
}

#[test]
fn test_error_from_string() {
    let err = Error::from("test error");
    match err {
        Error::Other(msg) => assert_eq!(msg, "test error"),
        _ => panic!("Expected Error::Other"),
    }
}

#[test]
fn test_error_from_owned_string() {
    let err = Error::from("another error".to_string());
    match err {
        Error::Other(msg) => assert_eq!(msg, "another error"),
        _ => panic!("Expected Error::Other"),
    }
}
