use cargoman::detail::{Feature, PackageDetail};
use cargoman::render::{crate_info_lines, render_crate_info, render_search};
use cargoman::style::Style;

fn strings(items: &[&str]) -> Vec<String> {
    items.iter().map(|s| s.to_string()).collect()
}

fn feature(name: &str, enables: &[&str]) -> Feature {
    Feature {
        name: name.to_string(),
        enables: strings(enables),
    }
}

#[test]
fn search_success_prints_one_name_per_line() {
    let names = strings(&["regex", "regex-lite"]);
    let r = render_search(Ok(names), Style::Plain);
    assert_eq!(r.out, strings(&["regex", "regex-lite"]));
    assert!(r.err.is_empty());
}

#[test]
fn search_success_colored_prints_green_names() {
    let names = strings(&["regex"]);
    let r = render_search(Ok(names), Style::Colored);
    assert_eq!(r.out, strings(&["\u{1b}[32mregex\u{1b}[0m"]));
    assert!(r.err.is_empty());
}

#[test]
fn search_error_goes_to_stderr_only() {
    let r = render_search(Err("connection refused".to_string()), Style::Plain);
    assert!(r.out.is_empty());
    assert_eq!(r.err, strings(&["connection refused"]));
}

#[test]
fn info_error_goes_to_stderr_only() {
    let msg = "Resource at url https://crates.io/api/v1/crates/nonexistent-pkg could not be found.";
    let r = render_crate_info(Err(msg.to_string()), Style::Plain);
    assert!(r.out.is_empty());
    assert_eq!(r.err, strings(&[msg]));
}

fn full_detail() -> PackageDetail {
    PackageDetail {
        name: "serde".to_string(),
        license: Some("MIT OR Apache-2.0".to_string()),
        documentation: Some("https://docs.rs/serde".to_string()),
        homepage: Some("https://serde.rs".to_string()),
        repository: Some("https://github.com/serde-rs/serde".to_string()),
        downloads: 123456,
        versions: strings(&["1.0.1", "1.0.0"]),
        keywords: strings(&["serialization"]),
        categories: strings(&["encoding"]),
        features: vec![
            feature("default", &["std"]),
            feature("std", &[]),
            feature("derive", &[]),
        ],
        description: Some("A serialization framework".to_string()),
    }
}

#[test]
fn info_plain_renders_all_lines_in_fixed_order() {
    let lines = crate_info_lines(&full_detail(), Style::Plain);
    assert_eq!(
        lines,
        strings(&[
            "Crate-Name: serde",
            "License(s): MIT OR Apache-2.0",
            "Documentation: https://docs.rs/serde",
            "Homepage: https://serde.rs",
            "Repository: https://github.com/serde-rs/serde",
            "Downloads: 123456",
            "Versions: [\"1.0.1\", \"1.0.0\"]",
            "Keywords: [\"serialization\"]",
            "Categories: [\"encoding\"]",
            "Features: [\"std\", \"derive\"]",
            "Default Features: [\"std\"]",
            "A serialization framework",
        ])
    );
}

#[test]
fn info_colored_styles_each_field_per_policy() {
    let lines = crate_info_lines(&full_detail(), Style::Colored);
    assert_eq!(lines[0], "Crate-Name: \u{1b}[32mserde\u{1b}[0m");
    assert_eq!(lines[1], "License(s): \u{1b}[34mMIT OR Apache-2.0\u{1b}[0m");
    assert_eq!(lines[2], "Documentation: \u{1b}[34mhttps://docs.rs/serde\u{1b}[0m");
    assert_eq!(lines[3], "Homepage: \u{1b}[34mhttps://serde.rs\u{1b}[0m");
    assert_eq!(
        lines[4],
        "Repository: \u{1b}[34mhttps://github.com/serde-rs/serde\u{1b}[0m"
    );
    assert_eq!(lines[5], "Downloads: \u{1b}[33m123456\u{1b}[0m");
    assert_eq!(
        lines[6],
        "Versions: [\"\u{1b}[33m1.0.1\u{1b}[0m\", \"\u{1b}[33m1.0.0\u{1b}[0m\"]"
    );
    assert_eq!(lines[7], "Keywords: [\"\u{1b}[34mserialization\u{1b}[0m\"]");
    assert_eq!(lines[8], "Categories: [\"\u{1b}[34mencoding\u{1b}[0m\"]");
    assert_eq!(
        lines[9],
        "Features: [\"\u{1b}[34mstd\u{1b}[0m\", \"\u{1b}[34mderive\u{1b}[0m\"]"
    );
    assert_eq!(lines[10], "Default Features: [\"\u{1b}[34mstd\u{1b}[0m\"]");
    assert_eq!(lines[11], "A serialization framework");
    assert_eq!(lines.len(), 12);
}

#[test]
fn absent_optional_fields_are_omitted_entirely() {
    let d = PackageDetail {
        name: "foo".to_string(),
        license: None,
        documentation: None,
        homepage: None,
        repository: None,
        downloads: 0,
        versions: Vec::new(),
        keywords: Vec::new(),
        categories: Vec::new(),
        features: Vec::new(),
        description: None,
    };
    let lines = crate_info_lines(&d, Style::Plain);
    assert_eq!(
        lines,
        strings(&[
            "Crate-Name: foo",
            "License(s): None",
            "Downloads: 0",
            "Versions: []",
            "Keywords: []",
            "Categories: []",
            "Features: []",
            "Default Features: []",
        ])
    );
    assert!(!lines.iter().any(|l| l.starts_with("Documentation:")));
    assert!(!lines.iter().any(|l| l.starts_with("Homepage:")));
    assert!(!lines.iter().any(|l| l.starts_with("Repository:")));
}

#[test]
fn absent_license_renders_literal_none_in_red_when_colored() {
    let mut d = full_detail();
    d.license = None;
    let lines = crate_info_lines(&d, Style::Colored);
    assert_eq!(lines[1], "License(s): \u{1b}[31mNone\u{1b}[0m");
    let lines = crate_info_lines(&d, Style::Plain);
    assert_eq!(lines[1], "License(s): None");
}
