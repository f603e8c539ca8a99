//! The user's configuration and the session's fixed attributes.
//!
//! The editor sends settings as an open map from keys to structured values.
//! An update reads the recognized keys, checks every value, and only then
//! changes the configuration: a map with one bad value changes nothing.

use vstd::prelude::*;
use crate::json::{member, spec_member, JsonValue};
use crate::source::PositionEncoding;
use crate::json::{array, item_views, member_views, object, text, JsonView};
use crate::text::{chars_of, opt_view, reversed, same_text};

verus! {

/// Whether semantic tokens are offered.
#[derive(Debug, Clone, Copy, PartialEq, Eq, Structural)]
pub enum SemanticTokensMode {
    Disable,
    Enable,
}

/// Which formatter serves formatting requests.
#[derive(Debug, Clone, Copy, PartialEq, Eq, Structural)]
pub enum FormatterMode {
    Disable,
    Typstyle,
    Typstfmt,
}

/// When the document is exported.
#[derive(Debug, Clone, Copy, PartialEq, Eq, Structural)]
pub enum ExportMode {
    Never,
    OnSave,
    OnType,
    OnDocumentHasTitle,
}

/// The options of the compile group.
#[derive(Debug, Clone, PartialEq, Eq)]
pub struct CompileConfig {
    pub output_path: String,
    pub export_pdf: ExportMode,
    /// The root of the project; absolute where it is set.
    pub root_path: Option<String>,
}

/// The user's configuration.
#[derive(Debug, Clone, PartialEq, Eq)]
pub struct Config {
    pub compile: CompileConfig,
    pub semantic_tokens: SemanticTokensMode,
    pub formatter: FormatterMode,
    pub formatter_print_width: u32,
}

/// What was settled with the client when the session began.
#[derive(Debug, Clone, Copy, PartialEq, Eq, Structural)]
pub struct ConstConfig {
    pub position_encoding: PositionEncoding,
    /// The client takes dynamic registration for configuration changes.
    pub cfg_change_registration: bool,
    /// The client takes dynamic registration of semantic tokens.
    pub tokens_dynamic_registration: bool,
    pub tokens_overlapping_token_support: bool,
    pub tokens_multiline_token_support: bool,
    pub doc_line_folding_only: bool,
    /// The client takes dynamic registration of the formatter.
    pub doc_fmt_dynamic_registration: bool,
}

/// A configuration as plain values.
pub struct ConfigView {
    pub output_path: Seq<char>,
    pub export_pdf: ExportMode,
    pub root_path: Option<Seq<char>>,
    pub semantic_tokens: SemanticTokensMode,
    pub formatter: FormatterMode,
    pub formatter_print_width: u32,
}

/// Why an update was refused.
#[derive(Debug, Clone, Copy, PartialEq, Eq, Structural)]
pub enum ConfigError {
    OutputPath,
    ExportPdf,
    RootPath,
    SemanticTokens,
    FormatterMode,
    FormatterPrintWidth,
    /// The root path is set and does not start at the root.
    RootPathNotAbsolute,
}

/// What an update says of one option.
pub enum Field<T> {
    /// The key is absent: the option stays.
    Keep,
    Put(T),
    /// The key is present with a value that the option cannot take.
    Bad,
}

/// The key of the output path.
pub open spec fn key_output_path() -> Seq<char> {
    "outputPath"@
}

/// The key of the export mode.
pub open spec fn key_export_pdf() -> Seq<char> {
    "exportPdf"@
}

/// The key of the root path.
pub open spec fn key_root_path() -> Seq<char> {
    "rootPath"@
}

/// The key of the semantic tokens mode.
pub open spec fn key_semantic_tokens() -> Seq<char> {
    "semanticTokens"@
}

/// The key of the formatter.
pub open spec fn key_formatter_mode() -> Seq<char> {
    "formatterMode"@
}

/// The key of the print width of the formatter.
pub open spec fn key_formatter_print_width() -> Seq<char> {
    "formatterPrintWidth"@
}

/// The mode that a value names.
pub open spec fn spec_semantic_tokens(v: JsonValue) -> Option<SemanticTokensMode> {
    match v.spec_str() {
        Some(s) => if s == "disable"@ {
            Some(SemanticTokensMode::Disable)
        } else if s == "enable"@ {
            Some(SemanticTokensMode::Enable)
        } else {
            None
        },
        None => None,
    }
}

/// The formatter that a value names.
pub open spec fn spec_formatter(v: JsonValue) -> Option<FormatterMode> {
    match v.spec_str() {
        Some(s) => if s == "disable"@ {
            Some(FormatterMode::Disable)
        } else if s == "typstyle"@ {
            Some(FormatterMode::Typstyle)
        } else if s == "typstfmt"@ {
            Some(FormatterMode::Typstfmt)
        } else {
            None
        },
        None => None,
    }
}

/// The export mode that a value names.
pub open spec fn spec_export_mode(v: JsonValue) -> Option<ExportMode> {
    match v.spec_str() {
        Some(s) => if s == "never"@ {
            Some(ExportMode::Never)
        } else if s == "onSave"@ {
            Some(ExportMode::OnSave)
        } else if s == "onType"@ {
            Some(ExportMode::OnType)
        } else if s == "onDocumentHasTitle"@ {
            Some(ExportMode::OnDocumentHasTitle)
        } else {
            None
        },
        None => None,
    }
}

/// What the map says of an option whose values `parse` reads: nothing where
/// the key is absent or null.
pub open spec fn spec_field<T>(
    map: Seq<(String, JsonValue)>,
    key: Seq<char>,
    parse: spec_fn(JsonValue) -> Option<T>,
) -> Field<T> {
    match spec_member(map, key) {
        None => Field::Keep,
        Some(JsonValue::Null) => Field::Keep,
        Some(v) => match parse(v) {
            Some(x) => Field::Put(x),
            None => Field::Bad,
        },
    }
}

/// What the map says of the root path: null clears it.
pub open spec fn spec_root_field(map: Seq<(String, JsonValue)>) -> Field<Option<Seq<char>>> {
    match spec_member(map, key_root_path()) {
        None => Field::Keep,
        Some(JsonValue::Null) => Field::Put(None),
        Some(v) => match v.spec_str() {
            Some(s) => Field::Put(Some(s)),
            None => Field::Bad,
        },
    }
}

/// The option after the update.
pub open spec fn settle<T>(old: T, field: Field<T>) -> T {
    match field {
        Field::Put(x) => x,
        _ => old,
    }
}

/// The configuration that an update asks for, whether or not it is valid.
pub open spec fn spec_merged(c: ConfigView, map: Seq<(String, JsonValue)>) -> ConfigView {
    ConfigView {
        output_path: settle(
            c.output_path,
            spec_field(map, key_output_path(), |v: JsonValue| v.spec_str()),
        ),
        export_pdf: settle(
            c.export_pdf,
            spec_field(map, key_export_pdf(), |v: JsonValue| spec_export_mode(v)),
        ),
        root_path: settle(c.root_path, spec_root_field(map)),
        semantic_tokens: settle(
            c.semantic_tokens,
            spec_field(map, key_semantic_tokens(), |v: JsonValue| spec_semantic_tokens(v)),
        ),
        formatter: settle(
            c.formatter,
            spec_field(map, key_formatter_mode(), |v: JsonValue| spec_formatter(v)),
        ),
        formatter_print_width: settle(
            c.formatter_print_width,
            spec_field(map, key_formatter_print_width(), |v: JsonValue| v.spec_u32()),
        ),
    }
}

/// Whether the root path, where set, starts at the root.
pub open spec fn root_is_absolute(root: Option<Seq<char>>) -> bool {
    match root {
        Some(p) => p.len() > 0 && p[0] == '/',
        None => true,
    }
}

/// The first fault of an update: the first recognized key, in the order of
/// `ConfigError`, whose value cannot be taken; failing that, a root path that
/// is not absolute; none where the update is valid.
pub open spec fn spec_fault(c: ConfigView, map: Seq<(String, JsonValue)>) -> Option<ConfigError> {
    if spec_field(map, key_output_path(), |v: JsonValue| v.spec_str()) is Bad {
        Some(ConfigError::OutputPath)
    } else if spec_field(map, key_export_pdf(), |v: JsonValue| spec_export_mode(v)) is Bad {
        Some(ConfigError::ExportPdf)
    } else if spec_root_field(map) is Bad {
        Some(ConfigError::RootPath)
    } else if spec_field(map, key_semantic_tokens(), |v: JsonValue| spec_semantic_tokens(v))
        is Bad {
        Some(ConfigError::SemanticTokens)
    } else if spec_field(map, key_formatter_mode(), |v: JsonValue| spec_formatter(v)) is Bad {
        Some(ConfigError::FormatterMode)
    } else if spec_field(map, key_formatter_print_width(), |v: JsonValue| v.spec_u32()) is Bad {
        Some(ConfigError::FormatterPrintWidth)
    } else if !root_is_absolute(spec_merged(c, map).root_path) {
        Some(ConfigError::RootPathNotAbsolute)
    } else {
        None
    }
}

/// The configuration after an update: the merged one where the update is
/// valid, the old one where it is not.
pub open spec fn spec_update(c: ConfigView, map: Seq<(String, JsonValue)>) -> ConfigView {
    if spec_fault(c, map) is None {
        spec_merged(c, map)
    } else {
        c
    }
}

/// Whether the map, for each recognized key that it holds, holds the value
/// that the configuration has for it.
pub open spec fn describes(map: Seq<(String, JsonValue)>, c: ConfigView) -> bool {
    &&& settle(c.output_path, spec_field(map, key_output_path(), |v: JsonValue| v.spec_str()))
        == c.output_path
    &&& settle(c.export_pdf, spec_field(map, key_export_pdf(), |v: JsonValue| spec_export_mode(v)))
        == c.export_pdf
    &&& settle(c.root_path, spec_root_field(map)) == c.root_path
    &&& settle(
        c.semantic_tokens,
        spec_field(map, key_semantic_tokens(), |v: JsonValue| spec_semantic_tokens(v)),
    ) == c.semantic_tokens
    &&& settle(c.formatter, spec_field(map, key_formatter_mode(), |v: JsonValue| spec_formatter(v)))
        == c.formatter
    &&& settle(
        c.formatter_print_width,
        spec_field(map, key_formatter_print_width(), |v: JsonValue| v.spec_u32()),
    ) == c.formatter_print_width
}

/// The configuration that a session starts with.
pub open spec fn spec_default() -> ConfigView {
    ConfigView {
        output_path: Seq::<char>::empty(),
        export_pdf: ExportMode::Never,
        root_path: None,
        semantic_tokens: SemanticTokensMode::Enable,
        formatter: FormatterMode::Disable,
        formatter_print_width: 120,
    }
}

/// A failed update leaves the configuration as it was.
pub proof fn lemma_failed_update_keeps_config(c: ConfigView, map: Seq<(String, JsonValue)>)
    requires
        spec_fault(c, map) is Some,
    ensures
        spec_update(c, map) == c,
{
}

/// A map of a configuration's own values, applied to it, changes nothing,
/// whatever else the map holds.
pub proof fn lemma_own_values_keep_config(c: ConfigView, map: Seq<(String, JsonValue)>)
    requires
        describes(map, c),
    ensures
        spec_update(c, map) == c,
{
}

/// A map of default values, applied to the default configuration, leaves it
/// unchanged.
pub proof fn lemma_default_values_keep_default(map: Seq<(String, JsonValue)>)
    requires
        describes(map, spec_default()),
    ensures
        spec_update(spec_default(), map) == spec_default(),
{
    lemma_own_values_keep_config(spec_default(), map);
}

impl View for Config {
    type V = ConfigView;

    open spec fn view(&self) -> ConfigView {
        ConfigView {
            output_path: self.compile.output_path@,
            export_pdf: self.compile.export_pdf,
            root_path: opt_view(self.compile.root_path),
            semantic_tokens: self.semantic_tokens,
            formatter: self.formatter,
            formatter_print_width: self.formatter_print_width,
        }
    }
}

/// The mode that a value names.
fn parse_semantic_tokens(v: &JsonValue) -> (r: Option<SemanticTokensMode>)
    ensures
        r == spec_semantic_tokens(*v),
{
    match v.as_str() {
        Some(s) => if same_text(s, "disable") {
            Some(SemanticTokensMode::Disable)
        } else if same_text(s, "enable") {
            Some(SemanticTokensMode::Enable)
        } else {
            None
        },
        None => None,
    }
}

/// The formatter that a value names.
fn parse_formatter(v: &JsonValue) -> (r: Option<FormatterMode>)
    ensures
        r == spec_formatter(*v),
{
    match v.as_str() {
        Some(s) => if same_text(s, "disable") {
            Some(FormatterMode::Disable)
        } else if same_text(s, "typstyle") {
            Some(FormatterMode::Typstyle)
        } else if same_text(s, "typstfmt") {
            Some(FormatterMode::Typstfmt)
        } else {
            None
        },
        None => None,
    }
}

/// The export mode that a value names.
fn parse_export_mode(v: &JsonValue) -> (r: Option<ExportMode>)
    ensures
        r == spec_export_mode(*v),
{
    match v.as_str() {
        Some(s) => if same_text(s, "never") {
            Some(ExportMode::Never)
        } else if same_text(s, "onSave") {
            Some(ExportMode::OnSave)
        } else if same_text(s, "onType") {
            Some(ExportMode::OnType)
        } else if same_text(s, "onDocumentHasTitle") {
            Some(ExportMode::OnDocumentHasTitle)
        } else {
            None
        },
        None => None,
    }
}

/// The value under a key, where the key is present and not null.
fn present<'a>(map: &'a Vec<(String, JsonValue)>, key: &str) -> (r: Option<&'a JsonValue>)
    ensures
        match r {
            Some(v) => spec_member(map@, key@) == Some(*v) && *v != JsonValue::Null,
            None => spec_member(map@, key@) is None || spec_member(map@, key@) == Some(
                JsonValue::Null,
            ),
        },
{
    match member(map, key) {
        None => None,
        Some(v) => if v.is_null() {
            None
        } else {
            Some(v)
        },
    }
}

impl Default for Config {
    fn default() -> (r: Config)
        ensures
            r@ == spec_default(),
    {
        Config {
            compile: CompileConfig {
                output_path: String::new(),
                export_pdf: ExportMode::Never,
                root_path: None,
            },
            semantic_tokens: SemanticTokensMode::Enable,
            formatter: FormatterMode::Disable,
            formatter_print_width: 120,
        }
    }
}

impl Config {
    /// Applies the settings of the map. Either every recognized key of the
    /// map is taken over, or, at the first fault, nothing is changed at all.
    pub fn update_by_map(&mut self, update: &Vec<(String, JsonValue)>) -> (r: Result<
        (),
        ConfigError,
    >)
        ensures
            final(self)@ == spec_update(old(self)@, update@),
            r is Err ==> *final(self) == *old(self),
            r == match spec_fault(old(self)@, update@) {
                Some(e) => Err::<(), ConfigError>(e),
                None => Ok(()),
            },
    {
        let output_path: Option<String> = match present(update, "outputPath") {
            None => None,
            Some(v) => match v.as_str() {
                Some(s) => Some(s.to_owned()),
                None => { return Err(ConfigError::OutputPath); },
            },
        };
        let export_pdf: Option<ExportMode> = match present(update, "exportPdf") {
            None => None,
            Some(v) => match parse_export_mode(v) {
                Some(m) => Some(m),
                None => { return Err(ConfigError::ExportPdf); },
            },
        };
        let root_path: Option<Option<String>> = match member(update, "rootPath") {
            None => None,
            Some(v) => if v.is_null() {
                Some(None)
            } else {
                match v.as_str() {
                    Some(s) => Some(Some(s.to_owned())),
                    None => { return Err(ConfigError::RootPath); },
                }
            },
        };
        let semantic_tokens: Option<SemanticTokensMode> = match present(update, "semanticTokens") {
            None => None,
            Some(v) => match parse_semantic_tokens(v) {
                Some(m) => Some(m),
                None => { return Err(ConfigError::SemanticTokens); },
            },
        };
        let formatter: Option<FormatterMode> = match present(update, "formatterMode") {
            None => None,
            Some(v) => match parse_formatter(v) {
                Some(m) => Some(m),
                None => { return Err(ConfigError::FormatterMode); },
            },
        };
        let print_width: Option<u32> = match present(update, "formatterPrintWidth") {
            None => None,
            Some(v) => match v.as_u32() {
                Some(n) => Some(n),
                None => { return Err(ConfigError::FormatterPrintWidth); },
            },
        };
        let absolute = match &root_path {
            Some(Some(p)) => {
                let chars = chars_of(p.as_str());
                chars.len() > 0 && chars[0] == '/'
            },
            Some(None) => true,
            None => match &self.compile.root_path {
                Some(p) => {
                    let chars = chars_of(p.as_str());
                    chars.len() > 0 && chars[0] == '/'
                },
                None => true,
            },
        };
        if !absolute {
            return Err(ConfigError::RootPathNotAbsolute);
        }
        if let Some(p) = output_path {
            self.compile.output_path = p;
        }
        if let Some(m) = export_pdf {
            self.compile.export_pdf = m;
        }
        if let Some(p) = root_path {
            self.compile.root_path = p;
        }
        if let Some(m) = semantic_tokens {
            self.semantic_tokens = m;
        }
        if let Some(m) = formatter {
            self.formatter = m;
        }
        if let Some(n) = print_width {
            self.formatter_print_width = n;
        }
        Ok(())
    }

    /// A copy of the configuration.
    pub fn copy(&self) -> (r: Config)
        ensures
            r == *self,
    {
        Config {
            compile: CompileConfig {
                output_path: self.compile.output_path.clone(),
                export_pdf: self.compile.export_pdf,
                root_path: crate::text::clone_opt(&self.compile.root_path),
            },
            semantic_tokens: self.semantic_tokens,
            formatter: self.formatter,
            formatter_print_width: self.formatter_print_width,
        }
    }
}

/// The recognized options, in the order in which they are asked for.
pub open spec fn config_items() -> Seq<Seq<char>> {
    seq![
        key_output_path(),
        key_export_pdf(),
        key_root_path(),
        key_semantic_tokens(),
        key_formatter_mode(),
        key_formatter_print_width(),
    ]
}

/// The prefix of the sections that belong to this server.
pub open spec fn section_prefix() -> Seq<char> {
    "tinymist."@
}

/// The sections that are asked for: each option under the prefix of this
/// server and then bare.
pub open spec fn config_sections() -> Seq<Seq<char>> {
    Seq::new(
        2 * config_items().len(),
        |i: int|
            if i % 2 == 0 {
                section_prefix() + config_items()[i / 2]
            } else {
                config_items()[i / 2]
            },
    )
}

/// The parameters of the request for the configuration: one item for each
/// section.
pub open spec fn spec_items_params() -> JsonView {
    JsonView::Object(
        seq![
            (
                "items"@,
                JsonView::Array(
                    Seq::new(
                        config_sections().len(),
                        |i: int|
                            JsonView::Object(
                                seq![("section"@, JsonView::Text(config_sections()[i]))],
                            ),
                    ),
                ),
            ),
        ],
    )
}

/// The message of a refused update.
pub open spec fn spec_message(e: ConfigError) -> Seq<char> {
    match e {
        ConfigError::OutputPath => "outputPath must be text"@,
        ConfigError::ExportPdf => "exportPdf names no export mode"@,
        ConfigError::RootPath => "rootPath must be text or null"@,
        ConfigError::SemanticTokens => "semanticTokens must be enable or disable"@,
        ConfigError::FormatterMode => "formatterMode names no formatter"@,
        ConfigError::FormatterPrintWidth => "formatterPrintWidth must be a 32-bit number"@,
        ConfigError::RootPathNotAbsolute => "rootPath must be an absolute path"@,
    }
}

/// Of the two values that were returned for an option, under the prefix of
/// this server and bare, the first unless it is null.
pub open spec fn pick(prefixed: JsonValue, bare: JsonValue) -> JsonValue {
    if prefixed != JsonValue::Null {
        prefixed
    } else {
        bare
    }
}

/// Whether `map` is the map of settings that the returned values make: for
/// each option for which a pair of values was returned, in order, the
/// option's key with the value picked from the pair.
pub open spec fn is_values_map(values: Seq<JsonValue>, map: Seq<(String, JsonValue)>) -> bool {
    &&& map.len() == if values.len() / 2 < config_items().len() {
        values.len() / 2
    } else {
        config_items().len()
    }
    &&& forall|i: int|
        0 <= i < map.len() ==> (#[trigger] map[i]).0@ == config_items()[i] && map[i].1 == pick(
            values[2 * i],
            values[2 * i + 1],
        )
}

impl ConfigError {
    /// The message of a refused update.
    pub fn message(&self) -> (r: String)
        ensures
            r@ == spec_message(*self),
    {
        match self {
            ConfigError::OutputPath => "outputPath must be text".to_owned(),
            ConfigError::ExportPdf => "exportPdf names no export mode".to_owned(),
            ConfigError::RootPath => "rootPath must be text or null".to_owned(),
            ConfigError::SemanticTokens => "semanticTokens must be enable or disable".to_owned(),
            ConfigError::FormatterMode => "formatterMode names no formatter".to_owned(),
            ConfigError::FormatterPrintWidth => "formatterPrintWidth must be a 32-bit number"
                .to_owned(),
            ConfigError::RootPathNotAbsolute => "rootPath must be an absolute path".to_owned(),
        }
    }
}

/// The key of the option at a position of `config_items`.
fn item_key(at: usize) -> (r: &'static str)
    requires
        at < 6,
    ensures
        r@ == config_items()[at as int],
{
    if at == 0 {
        "outputPath"
    } else if at == 1 {
        "exportPdf"
    } else if at == 2 {
        "rootPath"
    } else if at == 3 {
        "semanticTokens"
    } else if at == 4 {
        "formatterMode"
    } else {
        "formatterPrintWidth"
    }
}

impl Config {
    /// The parameters of the request that asks the editor for the
    /// configuration.
    pub fn get_items() -> (r: JsonValue)
        ensures
            r@ == spec_items_params(),
    {
        let mut items: Vec<JsonValue> = Vec::new();
        let mut i: usize = 0;
        while i < 6
            invariant
                i <= 6,
                items@.len() == 2 * i,
                forall|k: int|
                    0 <= k < 2 * i ==> (#[trigger] items@[k])@ == JsonView::Object(
                        seq![("section"@, JsonView::Text(config_sections()[k]))],
                    ),
            decreases 6 - i,
        {
            let key = item_key(i);
            let mut prefixed = "tinymist.".to_owned();
            let key_chars = chars_of(key);
            crate::text::push_chars(&mut prefixed, &key_chars);
            let mut first: Vec<(String, JsonValue)> = Vec::new();
            first.push(("section".to_owned(), text(prefixed.as_str())));
            let first = object(first);
            let mut second: Vec<(String, JsonValue)> = Vec::new();
            second.push(("section".to_owned(), text(key)));
            let second = object(second);
            proof {
                assert(first@->Object_0 =~= seq![
                    ("section"@, JsonView::Text(config_sections()[2 * i as int])),
                ]);
                assert(second@->Object_0 =~= seq![
                    ("section"@, JsonView::Text(config_sections()[2 * i + 1])),
                ]);
            }
            items.push(first);
            items.push(second);
            i += 1;
        }
        let list = array(items);
        let mut members: Vec<(String, JsonValue)> = Vec::new();
        members.push(("items".to_owned(), list));
        let r = object(members);
        proof {
            assert(item_views(items@) =~= Seq::new(
                config_sections().len(),
                |i: int|
                    JsonView::Object(seq![("section"@, JsonView::Text(config_sections()[i]))]),
            ));
            assert(member_views(members@) =~= seq![("items"@, list@)]);
        }
        r
    }

    /// The map of settings that the values make which the editor returned
    /// for the sections of `get_items`.
    pub fn values_to_map(values: Vec<JsonValue>) -> (r: Vec<(String, JsonValue)>)
        ensures
            is_values_map(values@, r@),
    {
        let mut rest = reversed(values);
        let mut out: Vec<(String, JsonValue)> = Vec::new();
        let mut i: usize = 0;
        while i < 6 && rest.len() >= 2
            invariant
                i <= 6,
                out@.len() == i,
                rest@.len() + 2 * i == values@.len(),
                rest@ == values@.reverse().take(rest@.len() as int),
                forall|k: int|
                    0 <= k < i ==> (#[trigger] out@[k]).0@ == config_items()[k] && out@[k].1
                        == pick(values@[2 * k], values@[2 * k + 1]),
            decreases 6 - i,
        {
            let a = rest.pop().unwrap();
            let b = rest.pop().unwrap();
            proof {
                let n = values@.len() as int;
                assert(a == values@.reverse()[n - 2 * i - 1]);
                assert(b == values@.reverse()[n - 2 * i - 2]);
                assert(rest@ =~= values@.reverse().take(rest@.len() as int));
            }
            let value = if !a.is_null() {
                a
            } else {
                b
            };
            out.push((item_key(i).to_owned(), value));
            i += 1;
        }
        out
    }
}

/// The member under three keys, one inside the other.
pub open spec fn spec_at(v: JsonValue, a: Seq<char>, b: Seq<char>, c: Seq<char>) -> Option<
    JsonValue,
> {
    match v.spec_get(a) {
        Some(x) => match x.spec_get(b) {
            Some(y) => y.spec_get(c),
            None => None,
        },
        None => None,
    }
}

/// Whether the member under the three keys is `true`; `default` where there
/// is no such member or it is no boolean.
pub open spec fn spec_flag(
    v: JsonValue,
    a: Seq<char>,
    b: Seq<char>,
    c: Seq<char>,
    default: bool,
) -> bool {
    match spec_at(v, a, b, c) {
        Some(JsonValue::Bool(flag)) => flag,
        _ => default,
    }
}

/// Whether one of the values is the text `name`.
pub open spec fn offers(values: Seq<JsonValue>, name: Seq<char>) -> bool {
    exists|i: int| 0 <= i < values.len() && (#[trigger] values[i]).spec_str() == Some(name)
}

/// The position encoding for the capabilities of a client: UTF-8 where the
/// client offers it among its `general.positionEncodings`, else UTF-16, which
/// every client knows.
pub open spec fn spec_encoding(capabilities: JsonValue) -> PositionEncoding {
    match capabilities.spec_get("general"@) {
        Some(general) => match general.spec_get("positionEncodings"@) {
            Some(JsonValue::Array(values)) => if offers(values@, "utf-8"@) {
                PositionEncoding::Utf8
            } else {
                PositionEncoding::Utf16
            },
            _ => PositionEncoding::Utf16,
        },
        None => PositionEncoding::Utf16,
    }
}

/// What is settled with a client of the given capabilities.
pub open spec fn spec_negotiate(capabilities: JsonValue) -> ConstConfig {
    ConstConfig {
        position_encoding: spec_encoding(capabilities),
        cfg_change_registration: spec_flag(
            capabilities,
            "workspace"@,
            "didChangeConfiguration"@,
            "dynamicRegistration"@,
            false,
        ),
        tokens_dynamic_registration: spec_flag(
            capabilities,
            "textDocument"@,
            "semanticTokens"@,
            "dynamicRegistration"@,
            false,
        ),
        tokens_overlapping_token_support: spec_flag(
            capabilities,
            "textDocument"@,
            "semanticTokens"@,
            "overlappingTokenSupport"@,
            false,
        ),
        tokens_multiline_token_support: spec_flag(
            capabilities,
            "textDocument"@,
            "semanticTokens"@,
            "multilineTokenSupport"@,
            false,
        ),
        doc_line_folding_only: spec_flag(
            capabilities,
            "textDocument"@,
            "foldingRange"@,
            "lineFoldingOnly"@,
            true,
        ),
        doc_fmt_dynamic_registration: spec_flag(
            capabilities,
            "textDocument"@,
            "formatting"@,
            "dynamicRegistration"@,
            false,
        ),
    }
}

/// Whether the member under the three keys is `true`.
fn flag(v: &JsonValue, a: &str, b: &str, c: &str, default: bool) -> (r: bool)
    ensures
        r == spec_flag(*v, a@, b@, c@, default),
{
    match v.get(a) {
        Some(x) => match x.get(b) {
            Some(y) => match y.get(c) {
                Some(JsonValue::Bool(flag)) => *flag,
                _ => default,
            },
            None => default,
        },
        None => default,
    }
}

/// Whether one of the values is the text `name`.
fn is_offered(values: &Vec<JsonValue>, name: &str) -> (r: bool)
    ensures
        r == offers(values@, name@),
{
    let mut i: usize = 0;
    while i < values.len()
        invariant
            i <= values.len(),
            forall|k: int| 0 <= k < i ==> (#[trigger] values@[k]).spec_str() != Some(name@),
        decreases values.len() - i,
    {
        match values[i].as_str() {
            Some(s) => if same_text(s, name) {
                assert(values@[i as int].spec_str() == Some(name@));
                return true;
            },
            None => {},
        }
        i += 1;
    }
    false
}

impl ConstConfig {
    /// Settles the fixed attributes of a session from the capabilities that
    /// the client announced.
    pub fn negotiate(capabilities: &JsonValue) -> (r: ConstConfig)
        ensures
            r == spec_negotiate(*capabilities),
    {
        let position_encoding = match capabilities.get("general") {
            Some(general) => match general.get("positionEncodings") {
                Some(JsonValue::Array(values)) => if is_offered(values, "utf-8") {
                    PositionEncoding::Utf8
                } else {
                    PositionEncoding::Utf16
                },
                _ => PositionEncoding::Utf16,
            },
            None => PositionEncoding::Utf16,
        };
        ConstConfig {
            position_encoding,
            cfg_change_registration: flag(
                capabilities,
                "workspace",
                "didChangeConfiguration",
                "dynamicRegistration",
                false,
            ),
            tokens_dynamic_registration: flag(
                capabilities,
                "textDocument",
                "semanticTokens",
                "dynamicRegistration",
                false,
            ),
            tokens_overlapping_token_support: flag(
                capabilities,
                "textDocument",
                "semanticTokens",
                "overlappingTokenSupport",
                false,
            ),
            tokens_multiline_token_support: flag(
                capabilities,
                "textDocument",
                "semanticTokens",
                "multilineTokenSupport",
                false,
            ),
            doc_line_folding_only: flag(
                capabilities,
                "textDocument",
                "foldingRange",
                "lineFoldingOnly",
                true,
            ),
            doc_fmt_dynamic_registration: flag(
                capabilities,
                "textDocument",
                "formatting",
                "dynamicRegistration",
                false,
            ),
        }
    }
}

} // verus!
