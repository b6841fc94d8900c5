use site_recorder::crawler::{CrawlConfig, Crawler, CrawlerError};

#[test]
fn test_crawler_creation() {
    let config = CrawlConfig::new("https://example.com").unwrap();
    let crawler = Crawler::new(config);
    assert_eq!(crawler.get_discovered_count(), 1);
    assert_eq!(crawler.get_visited_count(), 0);
}

#[test]
fn test_is_same_domain() {
    let config = CrawlConfig::new("https://example.com").unwrap();
    let crawler = Crawler::new(config);

    assert!(crawler.is_same_domain("https://example.com/page").unwrap());
    assert!(!crawler.is_same_domain("https://other.com/page").unwrap());
}

#[test]
fn invalid_base_url_is_rejected() {
    assert!(matches!(
        CrawlConfig::new("not a url"),
        Err(CrawlerError::InvalidUrl(_))
    ));
    let config = CrawlConfig::new("https://example.com").unwrap();
    let crawler = Crawler::new(config);
    assert!(matches!(
        crawler.is_same_domain("::::"),
        Err(CrawlerError::InvalidUrl(_))
    ));
}

#[test]
fn frontier_visits_in_discovery_order_without_repeats() {
    let config = CrawlConfig::new("https://example.com/").unwrap();
    let mut crawler = Crawler::new(config);

    crawler.add_discovered_links(vec![
        "https://example.com/a".to_string(),
        "https://example.com/b".to_string(),
        "https://example.com/a".to_string(),
    ]);
    assert_eq!(crawler.get_discovered_count(), 3);

    assert_eq!(crawler.get_next_url().as_deref(), Some("https://example.com/"));
    assert_eq!(crawler.get_next_url().as_deref(), Some("https://example.com/a"));
    assert!(crawler.is_visited("https://example.com/a"));
    assert_eq!(crawler.get_next_url().as_deref(), Some("https://example.com/b"));
    assert_eq!(crawler.get_next_url(), None);
    assert_eq!(crawler.get_visited_count(), 3);
    assert!(!crawler.has_more_urls());
}

#[test]
fn visited_links_are_not_rediscovered() {
    let config = CrawlConfig::new("https://example.com/").unwrap();
    let mut crawler = Crawler::new(config);

    crawler.mark_visited("https://example.com/seen");
    crawler.mark_visited("https://example.com/seen");
    assert_eq!(crawler.get_visited_count(), 1);

    crawler.add_discovered_links(vec!["https://example.com/seen".to_string()]);
    assert_eq!(crawler.get_discovered_count(), 1);
    assert_eq!(crawler.get_remaining_count(), 0);
}

#[test]
fn base_config_defaults() {
    let config = CrawlConfig::new("https://www.example.com/start").unwrap();
    assert_eq!(config.base_url, "https://www.example.com/start");
    assert_eq!(config.base_domain, Some("www.example.com".to_string()));
    assert_eq!(config.max_depth, 10);
    assert!(config.same_domain_only);
    assert!(config.ignore_fragments);
    assert!(!config.ignore_query_params);
}

#[test]
fn test_extract_links() {
    let config = CrawlConfig::new("https://example.com").unwrap();
    let crawler = Crawler::new(config);

    let html = r#"
        <html>
            <body>
                <a href="/page1">Page 1</a>
                <a href="https://example.com/page2">Page 2</a>
                <a href="https://external.com/page">External</a>
            </body>
        </html>
    "#;

    let links = crawler.extract_links_from_html(html, "https://example.com").unwrap();
    assert!(links.len() >= 2);
}

#[test]
fn extracted_links_are_resolved_and_filtered() {
    let config = CrawlConfig::new("https://example.com").unwrap();
    let crawler = Crawler::new(config);

    let html = "<a href=\"/a#part\">A</a><a href=\"https://other.com/x\">X</a>";
    let links = crawler.extract_links_from_html(html, "https://example.com/base").unwrap();
    assert_eq!(links, vec!["https://example.com/a"]);

    let bad = crawler.extract_links_from_html(html, ":::");
    assert!(matches!(bad, Err(CrawlerError::InvalidUrl(_))));
}
