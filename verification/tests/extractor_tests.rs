use ferrisfetcher::presets;
use ferrisfetcher::{
    DataExtractor, ExtractionRule, ExtractionRuleBuilder, ExtractionType, FerrisFetcherError,
    HtmlParser,
};

#[test]
fn test_data_extractor_creation() {
    let extractor = DataExtractor::new();
    assert_eq!(extractor.rule_count(), 0);
}

#[test]
fn test_add_rule() {
    let mut extractor = DataExtractor::new();
    let rule = ExtractionRuleBuilder::new("test", "p")
        .extraction_type(ExtractionType::Text)
        .multiple(true)
        .build();

    extractor.add_rule(rule);
    assert_eq!(extractor.rule_count(), 1);
    assert!(extractor.has_rule("test"));
}

#[test]
fn test_extract_text() {
    let html = r#"
        <div>
            <p>First paragraph</p>
            <p>Second paragraph</p>
        </div>
        "#;

    let parser = HtmlParser::new(html).unwrap();
    let extractor = DataExtractor::new();

    let result = extractor.extract_text(&parser, "p", true).unwrap();
    assert_eq!(result, vec!["First paragraph", "Second paragraph"]);

    let result = extractor.extract_text(&parser, "p", false).unwrap();
    assert_eq!(result, vec!["First paragraph"]);
}

#[test]
fn test_extract_attr() {
    let html = r#"
        <div>
            <a href="https://example.com">Link 1</a>
            <a href="https://test.com">Link 2</a>
        </div>
        "#;

    let parser = HtmlParser::new(html).unwrap();
    let extractor = DataExtractor::new();

    let result = extractor.extract_attr(&parser, "a[href]", "href", true).unwrap();
    assert_eq!(result, vec!["https://example.com", "https://test.com"]);
}

#[test]
fn test_extract_by_rule() {
    let html = r#"
        <div>
            <h1>Article Title</h1>
            <p>Article content goes here</p>
        </div>
        "#;

    let parser = HtmlParser::new(html).unwrap();
    let rule = ExtractionRuleBuilder::new("title", "h1")
        .extraction_type(ExtractionType::Text)
        .multiple(false)
        .build();

    let extractor = DataExtractor::with_rules(vec![rule]);
    let result = extractor.extract_by_name(&parser, "title").unwrap();
    assert_eq!(result, vec!["Article Title"]);
}

#[test]
fn test_extract_all() {
    let html = r#"
        <article>
            <h1>Article Title</h1>
            <div class="content">Article content</div>
        </article>
        "#;

    let parser = HtmlParser::new(html).unwrap();
    let rules = vec![
        ExtractionRuleBuilder::new("title", "h1")
            .extraction_type(ExtractionType::Text)
            .multiple(false)
            .build(),
        ExtractionRuleBuilder::new("content", ".content")
            .extraction_type(ExtractionType::Text)
            .multiple(false)
            .build(),
    ];

    let extractor = DataExtractor::with_rules(rules);
    let results = extractor.extract_all(&parser).unwrap();

    assert_eq!(results.len(), 2);
    assert_eq!(results.get("title").unwrap(), &vec!["Article Title".to_string()]);
    assert_eq!(results.get("content").unwrap(), &vec!["Article content".to_string()]);
}

#[test]
fn test_article_preset() {
    let html = r#"
        <article>
            <h1>Test Article</h1>
            <div class="author">John Doe</div>
            <time datetime="2023-01-01">January 1, 2023</time>
            <div class="content">Article content here</div>
        </article>
        "#;

    let parser = HtmlParser::new(html).unwrap();
    let extractor = DataExtractor::with_rules(presets::article());
    let results = extractor.extract_all(&parser).unwrap();

    assert_eq!(results.get("title").unwrap(), &vec!["Test Article".to_string()]);
    assert_eq!(results.get("author").unwrap(), &vec!["John Doe".to_string()]);
}

#[test]
fn test_invalid_rule() {
    let extractor = DataExtractor::new();
    let html = "<div>Test</div>";
    let parser = HtmlParser::new(html).unwrap();

    let result = extractor.extract_by_name(&parser, "nonexistent");
    assert!(result.is_err());
}

#[test]
fn test_validate_rules() {
    let mut extractor = DataExtractor::new();

    // Valid rule
    let valid_rule = ExtractionRuleBuilder::new("test", "p")
        .extraction_type(ExtractionType::Text)
        .build();
    extractor.add_rule(valid_rule);
    assert!(extractor.validate_rules().is_ok());

    // Invalid rule (empty selector)
    let invalid_rule = ExtractionRuleBuilder::new("invalid", "")
        .extraction_type(ExtractionType::Text)
        .build();
    extractor.add_rule(invalid_rule);
    assert!(extractor.validate_rules().is_err());
}

fn message_of(error: FerrisFetcherError) -> String {
    match error {
        FerrisFetcherError::ExtractionError(message) => message,
        FerrisFetcherError::ParseError(message) => message,
        other => panic!("unexpected error: {:?}", other),
    }
}

#[test]
fn two_paragraphs_multiple_and_single() {
    let parser = HtmlParser::new("<p>A</p><p>B</p>").unwrap();
    let extractor = DataExtractor::new();
    let many = ExtractionRuleBuilder::new("paragraphs", "p").multiple(true).build();
    assert_eq!(extractor.extract_by_rule(&parser, &many).unwrap(), vec!["A", "B"]);
    let one = ExtractionRuleBuilder::new("paragraphs", "p").multiple(false).build();
    assert_eq!(extractor.extract_by_rule(&parser, &one).unwrap(), vec!["A"]);
}

#[test]
fn extract_all_omits_rules_without_values() {
    let parser = HtmlParser::new("<h1>Title</h1><p>   </p>").unwrap();
    let extractor = DataExtractor::with_rules(vec![
        ExtractionRuleBuilder::new("title", "h1").build(),
        ExtractionRuleBuilder::new("blank", "p").multiple(true).build(),
        ExtractionRuleBuilder::new("absent", "h2").build(),
        ExtractionRuleBuilder::new("broken", "invalid[selector").multiple(true).build(),
        ExtractionRuleBuilder::new("nameless", "h1")
            .extraction_type(ExtractionType::Attribute)
            .build(),
    ]);
    let results = extractor.extract_all(&parser).unwrap();
    assert_eq!(results.len(), 1);
    assert!(results.contains_key("title"));
    assert!(!results.contains_key("blank"));
    assert!(!results.contains_key("absent"));
    assert!(!results.contains_key("broken"));
    assert!(!results.contains_key("nameless"));
    for i in 0..results.len() {
        assert!(!results.value_at(i).is_empty());
    }
}

#[test]
fn attribute_rule_without_name_fails_validation_naming_the_rule() {
    let mut extractor = DataExtractor::new();
    extractor.add_rule(
        ExtractionRuleBuilder::new("links", "a").extraction_type(ExtractionType::Attribute).build(),
    );
    let error = extractor.validate_rules().unwrap_err();
    assert_eq!(
        message_of(error),
        "Rule 'links' with Attribute extraction type requires attribute name"
    );
}

#[test]
fn validation_reports_first_problem_in_insertion_order() {
    let mut extractor = DataExtractor::new();
    extractor.add_rule(ExtractionRuleBuilder::new("good", "p").build());
    extractor.add_rule(ExtractionRuleBuilder::new("empty", "").build());
    extractor.add_rule(
        ExtractionRuleBuilder::new("attr", "a").extraction_type(ExtractionType::Attribute).build(),
    );
    assert_eq!(message_of(extractor.validate_rules().unwrap_err()), "Rule 'empty' has empty selector");
}

#[test]
fn validation_rejects_empty_name() {
    let mut extractor = DataExtractor::new();
    extractor.add_rule(ExtractionRuleBuilder::new("", "p").build());
    assert_eq!(message_of(extractor.validate_rules().unwrap_err()), "Rule has empty name");
}

#[test]
fn attribute_extraction_without_name_is_an_extraction_error() {
    let parser = HtmlParser::new(r#"<a href="/x">x</a>"#).unwrap();
    let extractor = DataExtractor::new();
    let rule =
        ExtractionRuleBuilder::new("links", "a").extraction_type(ExtractionType::Attribute).build();
    match extractor.extract_by_rule(&parser, &rule) {
        Err(FerrisFetcherError::ExtractionError(message)) => assert_eq!(
            message,
            "Attribute extraction requires attribute name for rule 'links'"
        ),
        other => panic!("unexpected outcome: {:?}", other),
    }
}

#[test]
fn unknown_rule_name_is_reported() {
    let parser = HtmlParser::new("<div>Test</div>").unwrap();
    let extractor = DataExtractor::new();
    let error = extractor.extract_by_name(&parser, "nonexistent").unwrap_err();
    assert_eq!(message_of(error), "Extraction rule 'nonexistent' not found");
    assert_eq!(extractor.extract_single(&parser, "nonexistent"), None);
}

#[test]
fn invalid_selector_fails_multiple_but_not_single() {
    let parser = HtmlParser::new("<p>A</p>").unwrap();
    let extractor = DataExtractor::new();
    assert!(matches!(
        extractor.extract_text(&parser, "invalid[selector", true),
        Err(FerrisFetcherError::ParseError(_))
    ));
    assert_eq!(
        extractor.extract_text(&parser, "invalid[selector", false).unwrap(),
        Vec::<String>::new()
    );
}

#[test]
fn html_and_outer_html_rules_agree() {
    let parser = HtmlParser::new("<p>A</p><p>B</p>").unwrap();
    let extractor = DataExtractor::new();
    for kind in [ExtractionType::Html, ExtractionType::OuterHtml] {
        let many = ExtractionRuleBuilder::new("m", "p").extraction_type(kind).multiple(true).build();
        assert_eq!(extractor.extract_by_rule(&parser, &many).unwrap(), vec!["<p>A</p>", "<p>B</p>"]);
        let one = ExtractionRuleBuilder::new("m", "p").extraction_type(kind).build();
        assert_eq!(extractor.extract_by_rule(&parser, &one).unwrap(), vec!["<p>A</p>"]);
    }
}

#[test]
fn attribute_rules_single_and_multiple() {
    let parser = HtmlParser::new(r#"<a>none</a><a href="/x">x</a><a href="/y">y</a>"#).unwrap();
    let extractor = DataExtractor::new();
    assert_eq!(extractor.extract_attr(&parser, "a", "href", true).unwrap(), vec!["/x", "/y"]);
    // The first match carries no href, so a single-value rule finds nothing.
    assert_eq!(extractor.extract_attr(&parser, "a", "href", false).unwrap(), Vec::<String>::new());
    assert_eq!(extractor.extract_attr(&parser, "a[href]", "href", false).unwrap(), vec!["/x"]);
}

#[test]
fn readding_a_name_replaces_the_rule() {
    let mut extractor = DataExtractor::new();
    extractor.add_rule(ExtractionRuleBuilder::new("t", "h1").build());
    extractor.add_rule(ExtractionRuleBuilder::new("u", "h2").build());
    extractor.add_rule(ExtractionRuleBuilder::new("t", "h3").multiple(true).build());
    assert_eq!(extractor.rule_count(), 2);
    let rule = extractor.get_rule("t").unwrap();
    assert_eq!(rule.selector, "h3");
    assert!(rule.multiple);
    assert_eq!(extractor.rules().key_at(0), "t");
    assert_eq!(extractor.rules().key_at(1), "u");
}

#[test]
fn remove_and_clear_rules() {
    let mut extractor = DataExtractor::with_rules(presets::product());
    assert_eq!(extractor.rule_count(), 5);
    let removed: Option<ExtractionRule> = extractor.remove_rule("price");
    assert_eq!(removed.unwrap().name, "price");
    assert!(extractor.remove_rule("price").is_none());
    assert!(!extractor.has_rule("price"));
    assert_eq!(extractor.rule_count(), 4);
    extractor.clear_rules();
    assert_eq!(extractor.rule_count(), 0);
    assert!(extractor.get_rule("image").is_none());
}

#[test]
fn extract_single_takes_the_first_value() {
    let parser = HtmlParser::new("<p>A</p><p>B</p>").unwrap();
    let extractor = DataExtractor::with_rules(vec![
        ExtractionRuleBuilder::new("p", "p").multiple(true).build(),
        ExtractionRuleBuilder::new("h", "h1").build(),
    ]);
    assert_eq!(extractor.extract_single(&parser, "p"), Some("A".to_string()));
    assert_eq!(extractor.extract_single(&parser, "h"), None);
}

#[test]
fn builder_defaults_and_setters() {
    let rule = ExtractionRuleBuilder::new("n", "s").build();
    assert_eq!(rule.name, "n");
    assert_eq!(rule.selector, "s");
    assert_eq!(rule.extraction_type, ExtractionType::Text);
    assert!(!rule.multiple);
    assert_eq!(rule.attribute, None);
    let rule = ExtractionRuleBuilder::new("n", "s")
        .extraction_type(ExtractionType::Attribute)
        .attribute("href")
        .multiple(true)
        .build();
    assert_eq!(rule.extraction_type, ExtractionType::Attribute);
    assert_eq!(rule.attribute, Some("href".to_string()));
    assert!(rule.multiple);
}

#[test]
fn presets_hold_the_documented_rules() {
    let article = presets::article();
    let names: Vec<&str> = article.iter().map(|r| r.name.as_str()).collect();
    assert_eq!(names, vec!["title", "author", "publish_date", "content", "summary"]);
    assert_eq!(article[2].extraction_type, ExtractionType::Attribute);
    assert_eq!(article[2].attribute, Some("datetime".to_string()));
    assert!(article[3].multiple);
    let product = presets::product();
    let names: Vec<&str> = product.iter().map(|r| r.name.as_str()).collect();
    assert_eq!(names, vec!["product_name", "price", "description", "image", "availability"]);
    assert_eq!(product[3].selector, ".product-image img, [itemprop='image']");
    assert_eq!(product[3].attribute, Some("src".to_string()));
    assert!(product[3].multiple);
    let social = presets::social_media();
    let names: Vec<&str> = social.iter().map(|r| r.name.as_str()).collect();
    assert_eq!(names, vec!["post_text", "author", "timestamp", "likes", "comments"]);
    assert_eq!(social[2].attribute, Some("datetime".to_string()));
    for rules in [article, product, social] {
        assert!(DataExtractor::with_rules(rules).validate_rules().is_ok());
    }
}

#[test]
fn a_copy_of_an_extractor_holds_the_same_rules() {
    let mut extractor = DataExtractor::with_rules(presets::article());
    let copy = extractor.clone();
    extractor.clear_rules();
    assert_eq!(copy.rule_count(), 5);
    assert_eq!(copy.rules().key_at(0), "title");
    assert_eq!(copy.get_rule("publish_date").unwrap().attribute, Some("datetime".to_string()));
    assert_eq!(extractor.rule_count(), 0);
}
