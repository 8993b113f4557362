//! The persisted preferences and their TOML document.
//!
//! Reading and writing the file is the caller's business; this module turns
//! the text of the file into preferences and preferences into the text to
//! write. The TOML grammar itself is the `toml` crate's: its results are
//! named here, not described.

use vstd::prelude::*;

verus! {

/// The preferences that survive a restart.
#[derive(Debug, Clone, Copy, PartialEq, Eq, Structural)]
pub struct AppConfig {
    /// Seconds between two samples; at least 1 in every value that
    /// [`load_config`] returns.
    pub refresh_interval: u64,
    pub dark_mode: bool,
}

/// The preferences of a first start: one second, light theme.
pub open spec fn default_config() -> AppConfig {
    AppConfig { refresh_interval: 1, dark_mode: false }
}

impl Default for AppConfig {
    fn default() -> (c: Self)
        ensures
            c == default_config(),
    {
        AppConfig { refresh_interval: 1, dark_mode: false }
    }
}

/// What the logic reads of one value in a TOML table.
#[derive(Debug, Clone, Copy, PartialEq, Eq, Structural)]
pub enum TomlItem {
    Integer(i64),
    Boolean(bool),
    /// A string, float, date, array or table.
    Other,
}

/// Declares `toml::Value`, a value of a TOML document, as a type that is
/// carried through unread.
#[verifier::external_type_specification]
#[verifier::external_body]
pub struct ExTomlValue(toml::Value);

/// Declares `toml::map::Map`, the map behind `toml::Table`, as a type that
/// is carried through unread. What a table holds is told by [`table_items`].
#[verifier::external_type_specification]
#[verifier::external_body]
#[verifier::reject_recursive_types(K)]
#[verifier::reject_recursive_types(V)]
pub struct ExTomlMap<K, V>(toml::map::Map<K, V>);

/// The entries of a `toml::Table`: each key with what [`TomlItem`] keeps of
/// its value.
pub uninterp spec fn table_items(table: toml::map::Map<String, toml::Value>) -> Map<Seq<char>, TomlItem>;

/// The top-level entries of the TOML document `text`, or `None` where `text`
/// is no TOML document.
pub uninterp spec fn toml_parsed(text: Seq<char>) -> Option<Map<Seq<char>, TomlItem>>;

/// Parses a document with `toml::Table`'s `FromStr`, which is
/// `toml::from_str`; a text that is no document gives `None`. The outcome
/// depends on the text alone, and [`toml_parsed`] is its name.
#[verifier::external_body]
fn parse_table(text: &str) -> (r: Option<toml::map::Map<String, toml::Value>>)
    ensures
        match r {
            Some(table) => toml_parsed(text@) == Some(table_items(table)),
            None => toml_parsed(text@) is None,
        },
{
    text.parse::<toml::Table>().ok()
}

/// Looks a key up with `toml::map::Map::get`: `None` where the table has no
/// such key, else the value under it as a [`TomlItem`].
#[verifier::external_body]
fn table_get(table: &toml::map::Map<String, toml::Value>, key: &str) -> (r: Option<TomlItem>)
    ensures
        r == if table_items(*table).contains_key(key@) {
            Some(table_items(*table)[key@])
        } else {
            None
        },
{
    match table.get(key) {
        None => None,
        Some(toml::Value::Integer(i)) => Some(TomlItem::Integer(*i)),
        Some(toml::Value::Boolean(b)) => Some(TomlItem::Boolean(*b)),
        Some(toml::Value::String(_)) => Some(TomlItem::Other),
        Some(toml::Value::Float(_)) => Some(TomlItem::Other),
        Some(toml::Value::Datetime(_)) => Some(TomlItem::Other),
        Some(toml::Value::Array(_)) => Some(TomlItem::Other),
        Some(toml::Value::Table(_)) => Some(TomlItem::Other),
    }
}

/// A table without entries.
pub open spec fn no_items() -> Map<Seq<char>, TomlItem> {
    Map::empty()
}

/// Makes a table with `toml::map::Map::new`; it has no entries.
#[verifier::external_body]
fn table_new() -> (r: toml::map::Map<String, toml::Value>)
    ensures
        table_items(r) == no_items(),
{
    toml::Table::new()
}

/// Sets a key to an integer with `toml::map::Map::insert`, which adds the
/// entry or replaces the one under that key.
#[verifier::external_body]
fn table_insert_integer(table: &mut toml::map::Map<String, toml::Value>, key: &str, value: i64)
    ensures
        table_items(*final(table)) == table_items(*old(table)).insert(
            key@,
            TomlItem::Integer(value),
        ),
{
    table.insert(key.to_owned(), toml::Value::Integer(value));
}

/// Sets a key to a boolean with `toml::map::Map::insert`, which adds the
/// entry or replaces the one under that key.
#[verifier::external_body]
fn table_insert_boolean(table: &mut toml::map::Map<String, toml::Value>, key: &str, value: bool)
    ensures
        table_items(*final(table)) == table_items(*old(table)).insert(
            key@,
            TomlItem::Boolean(value),
        ),
{
    table.insert(key.to_owned(), toml::Value::Boolean(value));
}

/// What `toml::to_string` makes of a table that holds only integers and
/// booleans: the document, or the text of the serializer's error. A table
/// keeps its entries sorted by key, so its entries decide the outcome.
pub uninterp spec fn toml_rendered(items: Map<Seq<char>, TomlItem>) -> Result<Seq<char>, Seq<char>>;

/// Writes a table of integers and booleans out with `toml::to_string`; an
/// error is handed back as its `Display` text. The outcome depends on the
/// entries alone, and [`toml_rendered`] is its name.
#[verifier::external_body]
fn render_table(table: &toml::map::Map<String, toml::Value>) -> (r: Result<String, String>)
    requires
        forall|key: Seq<char>| #[trigger]
            table_items(*table).contains_key(key) ==> table_items(*table)[key] != TomlItem::Other,
    ensures
        match r {
            Ok(text) => toml_rendered(table_items(*table)) == Ok::<Seq<char>, Seq<char>>(text@),
            Err(reason) => toml_rendered(table_items(*table)) == Err::<Seq<char>, Seq<char>>(
                reason@,
            ),
        },
{
    toml::to_string(table).map_err(|e| e.to_string())
}

/// The key under which the refresh interval is stored.
pub open spec fn interval_key() -> Seq<char> {
    "refresh_interval"@
}

/// The key under which the theme preference is stored.
pub open spec fn dark_mode_key() -> Seq<char> {
    "dark_mode"@
}

/// The entry of `items` under `key`, if there is one.
pub open spec fn item_at(items: Map<Seq<char>, TomlItem>, key: Seq<char>) -> Option<TomlItem> {
    if items.contains_key(key) {
        Some(items[key])
    } else {
        None
    }
}

/// The preferences that two entries of a document stand for: the interval
/// must be an integer of at least 1, the theme a boolean. Anything else, a
/// missing entry included, is no preference record.
pub open spec fn config_of_items(interval: Option<TomlItem>, dark_mode: Option<TomlItem>) -> Option<
    AppConfig,
> {
    match (interval, dark_mode) {
        (Some(TomlItem::Integer(seconds)), Some(TomlItem::Boolean(dark))) => if seconds >= 1 {
            Some(AppConfig { refresh_interval: seconds as u64, dark_mode: dark })
        } else {
            None
        },
        _ => None,
    }
}

/// The preferences held by a parsed document, if it holds any.
pub open spec fn config_of_document(parsed: Option<Map<Seq<char>, TomlItem>>) -> Option<AppConfig> {
    match parsed {
        Some(items) => config_of_items(
            item_at(items, interval_key()),
            item_at(items, dark_mode_key()),
        ),
        None => None,
    }
}

/// The preferences in effect after reading `contents`, the text of the
/// preference file or `None` where it could not be read.
pub open spec fn loaded_config(contents: Option<Seq<char>>) -> AppConfig {
    match contents {
        Some(text) => match config_of_document(toml_parsed(text)) {
            Some(config) => config,
            None => default_config(),
        },
        None => default_config(),
    }
}

/// Builds preferences from the two entries of a document.
pub fn config_from_items(interval: Option<TomlItem>, dark_mode: Option<TomlItem>) -> (r: Option<
    AppConfig,
>)
    ensures
        r == config_of_items(interval, dark_mode),
{
    match (interval, dark_mode) {
        (Some(TomlItem::Integer(seconds)), Some(TomlItem::Boolean(dark))) => {
            if seconds >= 1 {
                Some(AppConfig { refresh_interval: seconds as u64, dark_mode: dark })
            } else {
                None
            }
        },
        _ => None,
    }
}

/// Reads preferences out of the text of a preference file.
pub fn decode_config(text: &str) -> (r: Option<AppConfig>)
    ensures
        r == config_of_document(toml_parsed(text@)),
{
    match parse_table(text) {
        Some(table) => {
            let interval = table_get(&table, "refresh_interval");
            let dark_mode = table_get(&table, "dark_mode");
            config_from_items(interval, dark_mode)
        },
        None => None,
    }
}

/// The preferences to start with, given what reading the preference file
/// gave: its text, or `None` where there was no file to read. A file that is
/// missing, is no TOML, or holds no valid record yields the defaults; this
/// never fails.
pub fn load_config(contents: Option<&str>) -> (config: AppConfig)
    ensures
        config == loaded_config(
            match contents {
                Some(text) => Some(text@),
                None => None,
            },
        ),
        config.refresh_interval >= 1,
        contents is None ==> config == default_config(),
{
    match contents {
        Some(text) => match decode_config(text) {
            Some(config) => config,
            None => AppConfig::default(),
        },
        None => AppConfig::default(),
    }
}

/// Where the preferences are kept: a file in the working directory.
pub open spec fn config_path() -> Seq<char> {
    "lightmon_config.toml"@
}

/// The path of the preference file. There always is one.
pub fn get_config_path() -> (path: Option<String>)
    ensures
        path matches Some(p) && p@ == config_path(),
{
    Some("lightmon_config.toml".to_owned())
}

/// The entries of the document that stands for `config`.
pub open spec fn config_items(config: AppConfig) -> Map<Seq<char>, TomlItem> {
    no_items().insert(interval_key(), TomlItem::Integer(config.refresh_interval as i64)).insert(
        dark_mode_key(),
        TomlItem::Boolean(config.dark_mode),
    )
}

/// Why an interval above `i64::MAX` cannot be written: TOML integers are
/// signed 64-bit numbers. The words are the `toml` serializer's for a `u64`
/// beyond that range.
pub open spec fn out_of_range_reason() -> Seq<char> {
    "out-of-range value for u64 type"@
}

/// The text of the preference file for `config`, or the reason why there is
/// none.
pub open spec fn encoded_config(config: AppConfig) -> Result<Seq<char>, Seq<char>> {
    if config.refresh_interval > i64::MAX {
        Err(out_of_range_reason())
    } else {
        toml_rendered(config_items(config))
    }
}

/// Writes preferences as the text of a preference file.
pub fn encode_config(config: &AppConfig) -> (r: Result<String, String>)
    ensures
        match r {
            Ok(text) => encoded_config(*config) == Ok::<Seq<char>, Seq<char>>(text@),
            Err(reason) => encoded_config(*config) == Err::<Seq<char>, Seq<char>>(reason@),
        },
{
    if config.refresh_interval > 0x7fff_ffff_ffff_ffff {
        return Err("out-of-range value for u64 type".to_owned());
    }
    let mut table = table_new();
    table_insert_integer(&mut table, "refresh_interval", config.refresh_interval as i64);
    table_insert_boolean(&mut table, "dark_mode", config.dark_mode);
    render_table(&table)
}

/// A preference file to be written: where, and what.
#[derive(Debug, PartialEq, Eq)]
pub struct ConfigFile {
    pub path: String,
    pub contents: String,
}

impl Clone for ConfigFile {
    fn clone(&self) -> (copy: Self)
        ensures
            copy == *self,
    {
        ConfigFile { path: self.path.clone(), contents: self.contents.clone() }
    }
}

/// A [`ConfigFile`] as plain text.
pub struct ConfigFileModel {
    pub path: Seq<char>,
    pub contents: Seq<char>,
}

impl View for ConfigFile {
    type V = ConfigFileModel;

    open spec fn view(&self) -> ConfigFileModel {
        ConfigFileModel { path: self.path@, contents: self.contents@ }
    }
}

/// The file that holds `config`, or the reason why it cannot be written.
pub open spec fn saved_config(config: AppConfig) -> Result<ConfigFileModel, Seq<char>> {
    match encoded_config(config) {
        Ok(text) => Ok(ConfigFileModel { path: config_path(), contents: text }),
        Err(reason) => Err(reason),
    }
}

/// Prepares the preference file for `config`: its path and the text to put
/// there. The caller writes it.
pub fn save_config(config: &AppConfig) -> (r: Result<ConfigFile, String>)
    ensures
        match r {
            Ok(file) => saved_config(*config) == Ok::<ConfigFileModel, Seq<char>>(file@),
            Err(reason) => saved_config(*config) == Err::<ConfigFileModel, Seq<char>>(reason@),
        },
{
    match get_config_path() {
        Some(path) => match encode_config(config) {
            Ok(contents) => Ok(ConfigFile { path, contents }),
            Err(reason) => Err(reason),
        },
        None => Err("Could not determine config path".to_owned()),
    }
}

/// A preference file that cannot be read, is no TOML document, or holds no
/// valid record gives exactly the defaults: one second, light theme.
/// Whatever the file holds, the interval that comes out is at least 1.
pub proof fn lemma_unusable_file_gives_defaults(text: Seq<char>)
    ensures
        default_config() == (AppConfig { refresh_interval: 1, dark_mode: false }),
        loaded_config(None) == default_config(),
        toml_parsed(text) is None ==> loaded_config(Some(text)) == default_config(),
        config_of_document(toml_parsed(text)) is None ==> loaded_config(Some(text))
            == default_config(),
        loaded_config(Some(text)).refresh_interval >= 1,
{
}

/// A document with the entries that saving writes for `config` loads as
/// `config` again, as long as the interval is one that can be written and
/// read: from 1 to `i64::MAX`. That the text of a saved file parses back to
/// the entries it was made from is the `toml` crate's part and not stated
/// here.
pub proof fn lemma_saved_entries_load_back(config: AppConfig, text: Seq<char>)
    requires
        1 <= config.refresh_interval <= i64::MAX,
        toml_parsed(text) == Some(config_items(config)),
    ensures
        loaded_config(Some(text)) == config,
{
    reveal_strlit("refresh_interval");
    reveal_strlit("dark_mode");
    assert(interval_key().len() != dark_mode_key().len());
}

} // verus!
