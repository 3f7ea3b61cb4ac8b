use eventhandler_config::{
    parse_events, parse_yesno, strip_bom, Config, ConfigError, EventMask, ALL_EVENT_BITS,
};

fn load_text(text: &str) -> Result<Config, ConfigError> {
    Config::load(Ok(text.as_bytes().to_vec()))
}

#[test]
fn empty_general_section_gives_defaults() {
    let c = Config::from_text("[general]\n").unwrap();
    assert!(c.enabled);
    assert_eq!(c.db_path, "events.db");
    assert_eq!(c.events.bits(), ALL_EVENT_BITS);
    assert_eq!(c, Config::default());
}

#[test]
fn all_explicit_values_are_taken() {
    let c = Config::from_text("[general]\nenabled = yes\ndb_path = /tmp/x.db\nevents = 3\n").unwrap();
    assert!(c.enabled);
    assert_eq!(c.db_path, "/tmp/x.db");
    assert_eq!(c.events.bits(), 3);
    assert_eq!(c.events, EventMask::from_bits_truncate(0b11));
}

#[test]
fn enabled_true_is_not_yes() {
    let c = Config::from_text("[general]\nenabled = true\n").unwrap();
    assert!(!c.enabled);
}

#[test]
fn enabled_no_is_off() {
    let c = Config::from_text("[general]\nenabled = no\n").unwrap();
    assert!(!c.enabled);
}

#[test]
fn enabled_absent_is_on() {
    let c = Config::from_text("[general]\ndb_path = a.db\n").unwrap();
    assert!(c.enabled);
    assert_eq!(c.db_path, "a.db");
}

#[test]
fn events_unknown_bits_are_dropped() {
    let c = Config::from_text("[general]\nevents = 4294967295\n").unwrap();
    assert_eq!(c.events.bits(), 0x1fb);
    let c = Config::from_text("[general]\nevents = 4\n").unwrap();
    assert_eq!(c.events.bits(), 0);
    let c = Config::from_text("[general]\nevents = 1029\n").unwrap();
    assert_eq!(c.events.bits(), 1);
}

#[test]
fn events_zero_gives_empty_mask() {
    let c = Config::from_text("[general]\nenabled = yes\nevents = 0\n").unwrap();
    assert!(c.enabled);
    assert!(c.events.is_empty());
    assert_eq!(c.events.bits(), 0);
}

#[test]
fn unparsable_events_gives_all() {
    let c = Config::from_text("[general]\nevents = abc\n").unwrap();
    assert_eq!(c.events.bits(), ALL_EVENT_BITS);
    let c = Config::from_text("[general]\nevents = 4294967296\n").unwrap();
    assert_eq!(c.events, EventMask::all());
    let c = Config::from_text("[general]\nevents = -1\n").unwrap();
    assert_eq!(c.events, EventMask::all());
}

#[test]
fn missing_general_section_is_an_error() {
    let r = Config::from_text("[other]\n");
    assert_eq!(r, Err(ConfigError::MissingSectionError));
    assert_eq!(
        r.unwrap_err().message(),
        "No 'general' section present in the config file."
    );
}

#[test]
fn keys_outside_general_are_ignored() {
    let r = Config::from_text("enabled = no\n[other]\nenabled = no\n");
    assert_eq!(r, Err(ConfigError::MissingSectionError));
    let c = Config::from_text("[other]\nenabled = no\n[general]\n").unwrap();
    assert!(c.enabled);
}

#[test]
fn failed_read_is_an_io_error() {
    let r = Config::load(Err("No such file or directory (os error 2)".to_string()));
    assert_eq!(
        r,
        Err(ConfigError::IOError("No such file or directory (os error 2)".to_string()))
    );
}

#[test]
fn bad_syntax_is_a_syntax_error() {
    let r = Config::from_text("[general]\n= yes\n");
    assert!(matches!(r, Err(ConfigError::SyntaxError(_))));
    let msg = r.unwrap_err().message();
    assert!(msg.contains("missing key"));
    let r = Config::from_text("[general\nenabled = yes\n");
    assert!(matches!(r, Err(ConfigError::SyntaxError(_))));
}

#[test]
fn loading_twice_gives_equal_configs() {
    let text = "[general]\nenabled = yes\ndb_path = /var/lib/events.db\nevents = 17\n";
    let first = load_text(text);
    let second = load_text(text);
    assert_eq!(first, second);
    assert_eq!(first.unwrap().events.bits(), 17);
}

#[test]
fn load_reads_utf8_contents() {
    let c = load_text("[general]\ndb_path = /data/\u{e9}v\u{e9}nements.db\n").unwrap();
    assert_eq!(c.db_path, "/data/\u{e9}v\u{e9}nements.db");
}

#[test]
fn load_drops_byte_order_mark() {
    let mut bytes = vec![0xef, 0xbb, 0xbf];
    bytes.extend_from_slice(b"[general]\nevents = 2\n");
    let c = Config::load(Ok(bytes)).unwrap();
    assert_eq!(c.events.bits(), 2);
}

#[test]
fn load_rejects_invalid_utf8() {
    let r = Config::load(Ok(vec![b'[', 0xff, b']']));
    assert_eq!(
        r,
        Err(ConfigError::IOError("stream did not contain valid UTF-8".to_string()))
    );
}

#[test]
fn strip_bom_only_strips_a_full_mark() {
    assert_eq!(strip_bom(vec![0xef, 0xbb, 0xbf, b'a']), vec![b'a']);
    assert_eq!(strip_bom(vec![0xef, 0xbb, 0xbf]), Vec::<u8>::new());
    assert_eq!(strip_bom(vec![0xef, 0xbb, b'a']), vec![0xef, 0xbb, b'a']);
    assert_eq!(strip_bom(vec![]), Vec::<u8>::new());
}

#[test]
fn parse_yesno_is_exact() {
    assert!(parse_yesno("yes"));
    assert!(!parse_yesno("Yes"));
    assert!(!parse_yesno("true"));
    assert!(!parse_yesno("1"));
    assert!(!parse_yesno("no"));
    assert!(!parse_yesno(""));
}

#[test]
fn parse_events_reads_decimal() {
    assert_eq!(parse_events("3").map(|m| m.bits()), Some(3));
    assert_eq!(parse_events("+8").map(|m| m.bits()), Some(8));
    assert_eq!(parse_events("4294967295").map(|m| m.bits()), Some(ALL_EVENT_BITS));
    assert_eq!(parse_events("abc"), None);
    assert_eq!(parse_events(""), None);
    assert_eq!(parse_events("+"), None);
    assert_eq!(parse_events(" 3"), None);
    assert_eq!(parse_events("4294967296"), None);
}

#[test]
fn event_mask_operations() {
    let all = EventMask::all();
    assert_eq!(all.bits(), 0x1fb);
    let some = EventMask::from_bits_truncate(0b1_0000_0100 | 0b10);
    assert_eq!(some.bits(), 0b1_0000_0010);
    assert!(all.contains(some));
    assert!(!some.contains(all));
    assert!(!some.is_empty());
    assert!(EventMask::from_bits_truncate(4).is_empty());
}
