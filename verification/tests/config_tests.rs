use tinymist::config::{
    CompileConfig, Config, ConfigError, ExportMode, FormatterMode, SemanticTokensMode,
};
use tinymist::json::{JsonNumber, JsonValue};

fn text(s: &str) -> JsonValue {
    JsonValue::Text(s.to_owned())
}

fn map(members: Vec<(&str, JsonValue)>) -> Vec<(String, JsonValue)> {
    members.into_iter().map(|(k, v)| (k.to_owned(), v)).collect()
}

fn num(n: u64) -> JsonValue {
    JsonValue::Number(JsonNumber::PosInt(n))
}

#[test]
fn default_config() {
    let c = Config::default();
    assert_eq!(
        c,
        Config {
            compile: CompileConfig {
                output_path: String::new(),
                export_pdf: ExportMode::Never,
                root_path: None,
            },
            semantic_tokens: SemanticTokensMode::Enable,
            formatter: FormatterMode::Disable,
            formatter_print_width: 120,
        }
    );
}

#[test]
fn default_values_leave_default_config_unchanged() {
    let mut c = Config::default();
    let defaults = map(vec![
        ("outputPath", text("")),
        ("exportPdf", text("never")),
        ("rootPath", JsonValue::Null),
        ("semanticTokens", text("enable")),
        ("formatterMode", text("disable")),
        ("formatterPrintWidth", num(120)),
        ("somethingElse", JsonValue::Bool(true)),
    ]);
    assert_eq!(c.update_by_map(&defaults), Ok(()));
    assert_eq!(c, Config::default());
    assert_eq!(c.update_by_map(&map(vec![])), Ok(()));
    assert_eq!(c, Config::default());
}

#[test]
fn update_takes_every_recognized_key() {
    let mut c = Config::default();
    let update = map(vec![
        ("outputPath", text("$root/out")),
        ("exportPdf", text("onSave")),
        ("rootPath", text("/work/project")),
        ("semanticTokens", text("disable")),
        ("formatterMode", text("typstfmt")),
        ("formatterPrintWidth", num(4294967295)),
    ]);
    assert_eq!(c.update_by_map(&update), Ok(()));
    assert_eq!(c.compile.output_path, "$root/out");
    assert_eq!(c.compile.export_pdf, ExportMode::OnSave);
    assert_eq!(c.compile.root_path.as_deref(), Some("/work/project"));
    assert_eq!(c.semantic_tokens, SemanticTokensMode::Disable);
    assert_eq!(c.formatter, FormatterMode::Typstfmt);
    assert_eq!(c.formatter_print_width, u32::MAX);

    // null leaves an option as it is, but clears the root path
    let update = map(vec![("formatterMode", JsonValue::Null), ("rootPath", JsonValue::Null)]);
    assert_eq!(c.update_by_map(&update), Ok(()));
    assert_eq!(c.formatter, FormatterMode::Typstfmt);
    assert_eq!(c.compile.root_path, None);
    for (name, mode) in [
        ("never", ExportMode::Never),
        ("onType", ExportMode::OnType),
        ("onDocumentHasTitle", ExportMode::OnDocumentHasTitle),
    ] {
        assert_eq!(c.update_by_map(&map(vec![("exportPdf", text(name))])), Ok(()));
        assert_eq!(c.compile.export_pdf, mode);
    }
    assert_eq!(c.update_by_map(&map(vec![("formatterMode", text("typstyle"))])), Ok(()));
    assert_eq!(c.formatter, FormatterMode::Typstyle);
}

#[test]
fn failed_update_leaves_config_unchanged() {
    let cases: Vec<(Vec<(&str, JsonValue)>, ConfigError)> = vec![
        (vec![("outputPath", num(1))], ConfigError::OutputPath),
        (vec![("exportPdf", text("sometimes"))], ConfigError::ExportPdf),
        (vec![("rootPath", JsonValue::Bool(true))], ConfigError::RootPath),
        (vec![("semanticTokens", text("maybe"))], ConfigError::SemanticTokens),
        (vec![("formatterMode", text("prettier"))], ConfigError::FormatterMode),
        (vec![("formatterPrintWidth", num(4294967296))], ConfigError::FormatterPrintWidth),
        (vec![("formatterPrintWidth", text("80"))], ConfigError::FormatterPrintWidth),
        (
            vec![("formatterPrintWidth", JsonValue::Number(JsonNumber::NegInt(-1)))],
            ConfigError::FormatterPrintWidth,
        ),
        (vec![("rootPath", text("relative/dir"))], ConfigError::RootPathNotAbsolute),
        (vec![("rootPath", text(""))], ConfigError::RootPathNotAbsolute),
    ];
    for (bad, expected) in cases {
        let mut c = Config::default();
        c.update_by_map(&map(vec![("formatterMode", text("typstyle")), ("rootPath", text("/r"))])).unwrap();
        let before = c.clone();
        // the valid keys of the update must not be taken over either
        let mut update = map(bad);
        update.extend(map(vec![
            ("outputPath", text("changed")),
            ("semanticTokens", text("disable")),
            ("formatterPrintWidth", num(1)),
        ]));
        assert_eq!(c.update_by_map(&update), Err(expected));
        assert_eq!(c, before);
        assert!(!expected.message().is_empty());
    }
}

#[test]
fn first_fault_is_reported() {
    let mut c = Config::default();
    let update = map(vec![
        ("formatterPrintWidth", text("wide")),
        ("semanticTokens", num(1)),
        ("outputPath", JsonValue::Bool(false)),
    ]);
    assert_eq!(c.update_by_map(&update), Err(ConfigError::OutputPath));
    assert_eq!(ConfigError::RootPathNotAbsolute.message(), "rootPath must be an absolute path");
}

#[test]
fn values_are_paired_with_the_options() {
    let values = vec![
        JsonValue::Null,
        text("out"),
        text("onSave"),
        text("never"),
        JsonValue::Null,
        JsonValue::Null,
        text("disable"),
    ];
    assert_eq!(
        Config::values_to_map(values),
        map(vec![
            ("outputPath", text("out")),
            ("exportPdf", text("onSave")),
            ("rootPath", JsonValue::Null),
        ])
    );
    assert_eq!(Config::values_to_map(vec![]), map(vec![]));
    assert_eq!(Config::values_to_map(vec![text("x")]), map(vec![]));
    let many: Vec<JsonValue> = (0..20).map(num).collect();
    let got = Config::values_to_map(many);
    assert_eq!(got.len(), 6);
    assert_eq!(got[5], ("formatterPrintWidth".to_owned(), num(10)));
    assert_eq!(got[3], ("semanticTokens".to_owned(), num(6)));
}
