//! The configuration value and how it is read from the text of a
//! configuration file.

use crate::document::{entries_of, find_section, find_value, parse_document, parsed_text};
use crate::events::{EventMask, ALL_EVENT_BITS};
use ini::Properties;
use vstd::prelude::*;
use vstd::utf8::{decode_utf8, valid_utf8};

verus! {

/// The runtime configuration of the event handler.
#[derive(Clone, Debug, PartialEq, Eq)]
pub struct Config {
    /// Whether events are recorded at all.
    pub enabled: bool,
    /// Where recorded events are stored; neither checked nor normalised.
    pub db_path: String,
    /// The event categories that are recorded.
    pub events: EventMask,
}

/// A configuration as plain mathematical values.
pub struct ConfigView {
    pub enabled: bool,
    pub db_path: Seq<char>,
    pub events: u32,
}

impl View for Config {
    type V = ConfigView;

    open spec fn view(&self) -> ConfigView {
        ConfigView { enabled: self.enabled, db_path: self.db_path@, events: self.events@ }
    }
}

/// Why no configuration could be loaded.
#[derive(Clone, Debug, PartialEq, Eq)]
pub enum ConfigError {
    /// The file could not be opened or read, or is not UTF-8 text.
    IOError(String),
    /// The text is not well-formed section/key-value text.
    SyntaxError(String),
    /// The text holds no `general` section.
    MissingSectionError,
}

/// A load error as plain mathematical values.
pub enum ConfigErrorView {
    IOError(Seq<char>),
    SyntaxError(Seq<char>),
    MissingSectionError,
}

impl View for ConfigError {
    type V = ConfigErrorView;

    open spec fn view(&self) -> ConfigErrorView {
        match self {
            ConfigError::IOError(m) => ConfigErrorView::IOError(m@),
            ConfigError::SyntaxError(m) => ConfigErrorView::SyntaxError(m@),
            ConfigError::MissingSectionError => ConfigErrorView::MissingSectionError,
        }
    }
}

/// The outcome of a load as plain mathematical values.
pub open spec fn outcome_view(r: Result<Config, ConfigError>) -> Result<ConfigView, ConfigErrorView> {
    match r {
        Ok(c) => Ok(c@),
        Err(e) => Err(e@),
    }
}

/// Whether a value of the `enabled` key turns recording on: only the exact
/// word `yes` does.
pub open spec fn yesno_spec(val: Seq<char>) -> bool {
    val == "yes"@
}

/// Whether a sequence is one or more ASCII decimal digits.
pub open spec fn is_decimal(d: Seq<char>) -> bool {
    d.len() > 0 && forall|i: int| 0 <= i < d.len() ==> '0' <= #[trigger] d[i] && d[i] <= '9'
}

/// The number that a sequence of decimal digits writes.
pub open spec fn decimal_value(d: Seq<char>) -> nat
    decreases d.len(),
{
    if d.len() == 0 {
        0
    } else {
        decimal_value(d.drop_last()) * 10 + ((d.last() as u32) - ('0' as u32)) as nat
    }
}

/// The unsigned 32-bit integer that a text writes in base 10: an optional
/// `+`, then one or more digits, with a value that fits in 32 bits.
pub open spec fn u32_of(s: Seq<char>) -> Option<u32> {
    let d = if s.len() > 0 && s[0] == '+' {
        s.drop_first()
    } else {
        s
    };
    if is_decimal(d) && decimal_value(d) <= u32::MAX {
        Some(decimal_value(d) as u32)
    } else {
        None
    }
}

/// The event mask that a value of the `events` key gives, if it is a number.
pub open spec fn events_spec(val: Seq<char>) -> Option<u32> {
    match u32_of(val) {
        Some(n) => Some(n & ALL_EVENT_BITS),
        None => None,
    }
}

/// The path used where none is given.
pub open spec fn default_db_path() -> Seq<char> {
    "events.db"@
}

/// The configuration used where a key is absent: recording on, the default
/// path, every event category.
pub open spec fn default_view() -> ConfigView {
    ConfigView { enabled: true, db_path: default_db_path(), events: ALL_EVENT_BITS }
}

/// The configuration that a `general` section gives: each key that is
/// present overrides its default, and an `events` value that is not a number
/// keeps the default.
pub open spec fn section_view(section: Map<Seq<char>, Seq<char>>) -> ConfigView {
    let d = default_view();
    ConfigView {
        enabled: if section.contains_key("enabled"@) {
            yesno_spec(section["enabled"@])
        } else {
            d.enabled
        },
        db_path: if section.contains_key("db_path"@) {
            section["db_path"@]
        } else {
            d.db_path
        },
        events: if section.contains_key("events"@) && events_spec(section["events"@]) is Some {
            events_spec(section["events"@])->Some_0
        } else {
            d.events
        },
    }
}

/// The outcome of loading a configuration from its text.
pub open spec fn text_outcome(text: Seq<char>) -> Result<ConfigView, ConfigErrorView> {
    match parsed_text(text) {
        Err(msg) => Err(ConfigErrorView::SyntaxError(msg)),
        Ok(sections) => if sections.contains_key("general"@) {
            Ok(section_view(sections["general"@]))
        } else {
            Err(ConfigErrorView::MissingSectionError)
        },
    }
}

/// A file's bytes without the UTF-8 byte order mark that may open them.
pub open spec fn without_bom(bytes: Seq<u8>) -> Seq<u8> {
    if bytes.len() >= 3 && bytes[0] == 0xefu8 && bytes[1] == 0xbbu8 && bytes[2] == 0xbfu8 {
        bytes.subrange(3, bytes.len() as int)
    } else {
        bytes
    }
}

/// The description of a file whose bytes are not UTF-8 text.
pub open spec fn not_utf8_message() -> Seq<char> {
    "stream did not contain valid UTF-8"@
}

/// The outcome of loading a configuration from the result of reading its
/// file: a failed read, or bytes that are not UTF-8 text once a byte order
/// mark is dropped, give an I/O error; else the text decides.
pub open spec fn read_outcome(read: Result<Seq<u8>, Seq<char>>) -> Result<ConfigView, ConfigErrorView> {
    match read {
        Err(msg) => Err(ConfigErrorView::IOError(msg)),
        Ok(bytes) => if valid_utf8(without_bom(bytes)) {
            text_outcome(decode_utf8(without_bom(bytes)))
        } else {
            Err(ConfigErrorView::IOError(not_utf8_message()))
        },
    }
}

/// The result of reading a file as plain mathematical values.
pub open spec fn read_view(read: Result<Vec<u8>, String>) -> Result<Seq<u8>, Seq<char>> {
    match read {
        Ok(bytes) => Ok(bytes@),
        Err(msg) => Err(msg@),
    }
}

/// The text of an error, for people to read.
pub open spec fn error_message(e: ConfigErrorView) -> Seq<char> {
    match e {
        ConfigErrorView::IOError(m) => m,
        ConfigErrorView::SyntaxError(m) => m,
        ConfigErrorView::MissingSectionError => "No 'general' section present in the config file."@,
    }
}

/// Relies on `u32`'s `FromStr`: an optional `+` followed by one or more ASCII
/// digits, whose value fits in a `u32`; anything else is an error.
#[verifier::external_body]
fn parse_u32(s: &str) -> (r: Option<u32>)
    ensures
        r == u32_of(s@),
{
    s.parse::<u32>().ok()
}

/// Relies on `String::from_utf8`: it succeeds exactly on valid UTF-8, and
/// the string holds the characters that the bytes encode.
#[verifier::external_body]
fn decode_text(bytes: Vec<u8>) -> (r: Option<String>)
    ensures
        r is Some <==> valid_utf8(bytes@),
        r is Some ==> r->Some_0@ == decode_utf8(bytes@),
{
    String::from_utf8(bytes).ok()
}

/// Drops the UTF-8 byte order mark that may open a file's bytes.
pub fn strip_bom(bytes: Vec<u8>) -> (r: Vec<u8>)
    ensures
        r@ == without_bom(bytes@),
{
    let mut bytes = bytes;
    if bytes.len() >= 3 && bytes[0] == 0xefu8 && bytes[1] == 0xbbu8 && bytes[2] == 0xbfu8 {
        bytes.split_off(3)
    } else {
        bytes
    }
}

/// Whether a value of the `enabled` key turns recording on: only the exact
/// word `yes` does.
pub fn parse_yesno(val: &str) -> (r: bool)
    ensures
        r == yesno_spec(val@),
{
    val.to_owned() == "yes".to_owned()
}

/// The event mask that a value of the `events` key gives: the known
/// categories among the bits of the number, or `None` where the value is not
/// a base-10 unsigned 32-bit number.
pub fn parse_events(val: &str) -> (r: Option<EventMask>)
    ensures
        r is Some <==> events_spec(val@) is Some,
        r is Some ==> r->Some_0@ == events_spec(val@)->Some_0,
{
    match parse_u32(val) {
        Some(n) => Some(EventMask::from_bits_truncate(n)),
        None => None,
    }
}

impl Default for Config {
    fn default() -> (r: Config)
        ensures
            r@ == default_view(),
    {
        Config { enabled: true, db_path: "events.db".to_owned(), events: EventMask::all() }
    }
}

impl Config {
    /// The configuration that a `general` section gives.
    fn from_section(section: &Properties) -> (r: Config)
        ensures
            r@ == section_view(entries_of(*section)),
    {
        let defaults = Config::default();
        let enabled = match find_value(section, "enabled") {
            Some(v) => parse_yesno(v),
            None => defaults.enabled,
        };
        let db_path = match find_value(section, "db_path") {
            Some(v) => v.to_owned(),
            None => defaults.db_path,
        };
        let events = match find_value(section, "events") {
            Some(v) => match parse_events(v) {
                Some(m) => m,
                None => defaults.events,
            },
            None => defaults.events,
        };
        Config { enabled, db_path, events }
    }

    /// Loads the configuration from the text of a configuration file: its
    /// `general` section must be present, and each of its keys that is
    /// present overrides the default.
    pub fn from_text(text: &str) -> (r: Result<Config, ConfigError>)
        ensures
            outcome_view(r) == text_outcome(text@),
    {
        match parse_document(text) {
            Err(msg) => Err(ConfigError::SyntaxError(msg)),
            Ok(doc) => match find_section(&doc, "general") {
                Some(section) => Ok(Config::from_section(section)),
                None => Err(ConfigError::MissingSectionError),
            },
        }
    }
    /// Loads the configuration from the result of reading its file: the
    /// error of a failed read, or the contents, which must be UTF-8 text (a
    /// leading byte order mark is dropped). No configuration comes of a
    /// failure.
    pub fn load(read: Result<Vec<u8>, String>) -> (r: Result<Config, ConfigError>)
        ensures
            outcome_view(r) == read_outcome(read_view(read)),
    {
        match read {
            Err(msg) => Err(ConfigError::IOError(msg)),
            Ok(bytes) => match decode_text(strip_bom(bytes)) {
                Some(text) => Config::from_text(text.as_str()),
                None => Err(ConfigError::IOError("stream did not contain valid UTF-8".to_owned())),
            },
        }
    }
}

impl ConfigError {
    /// The text of the error, for people to read.
    pub fn message(&self) -> (r: String)
        ensures
            r@ == error_message(self@),
    {
        match self {
            ConfigError::IOError(m) => m.clone(),
            ConfigError::SyntaxError(m) => m.clone(),
            ConfigError::MissingSectionError => "No 'general' section present in the config file.".to_owned(),
        }
    }
}

/// A section that holds no key gives the default configuration.
pub proof fn lemma_empty_section_gives_defaults(section: Map<Seq<char>, Seq<char>>)
    requires
        section.dom() =~= Set::<Seq<char>>::empty(),
    ensures
        section_view(section) == default_view(),
{
}

/// Recording is on exactly when the `enabled` key is absent or its value is
/// the word `yes`; any other value turns it off.
pub proof fn lemma_enabled_only_by_yes(section: Map<Seq<char>, Seq<char>>)
    ensures
        section_view(section).enabled == (!section.contains_key("enabled"@)
            || section["enabled"@] == "yes"@),
{
}

/// A numeric `events` value keeps only the bits of known categories, and
/// zero gives the empty mask.
pub proof fn lemma_events_keep_known_bits(section: Map<Seq<char>, Seq<char>>, n: u32)
    requires
        section.contains_key("events"@),
        u32_of(section["events"@]) == Some(n),
    ensures
        section_view(section).events == n & ALL_EVENT_BITS,
        section_view(section).events & !ALL_EVENT_BITS == 0,
        n == 0 ==> section_view(section).events == 0,
{
    let e = section_view(section).events;
    assert(e & !ALL_EVENT_BITS == 0 && (n == 0 ==> e == 0)) by (bit_vector)
        requires
            e == n & ALL_EVENT_BITS,
    ;
}

/// An `events` value that is not a base-10 unsigned 32-bit number is no
/// error: every category is recorded.
pub proof fn lemma_unparsable_events_gives_all(section: Map<Seq<char>, Seq<char>>)
    requires
        section.contains_key("events"@),
        u32_of(section["events"@]) is None,
    ensures
        section_view(section).events == ALL_EVENT_BITS,
{
}

/// A text without a `general` section gives no configuration, only the
/// missing-section error or, if it does not parse, a syntax error.
pub proof fn lemma_no_config_without_general(text: Seq<char>)
    requires
        !(parsed_text(text) is Ok && parsed_text(text)->Ok_0.contains_key("general"@)),
    ensures
        text_outcome(text) is Err,
        parsed_text(text) is Ok ==> text_outcome(text) == Err::<ConfigView, ConfigErrorView>(
            ConfigErrorView::MissingSectionError,
        ),
{
}

/// A file that cannot be read gives the I/O error of the read, and no
/// configuration.
pub proof fn lemma_failed_read_gives_io_error(msg: Seq<char>)
    ensures
        read_outcome(Err(msg)) == Err::<ConfigView, ConfigErrorView>(ConfigErrorView::IOError(msg)),
{
}

/// Loading the same file contents twice gives equal outcomes.
pub proof fn lemma_load_idempotent(
    read: Result<Seq<u8>, Seq<char>>,
    first: Result<Config, ConfigError>,
    second: Result<Config, ConfigError>,
)
    requires
        outcome_view(first) == read_outcome(read),
        outcome_view(second) == read_outcome(read),
    ensures
        outcome_view(first) == outcome_view(second),
        first is Ok <==> second is Ok,
{
}

} // verus!
