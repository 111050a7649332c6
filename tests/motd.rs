use nano_mc::motd::{component_from, parse_motd, split_str};
use nano_mc::status::DEFAULT_MOTD;

#[test]
fn split_like_str_split() {
    for (s, sep) in [("a,b,,c", ","), ("", ","), ("},x},", "},"), ("abc", "abc"), ("aaa", "aa"), ("no", "x")] {
        let expected: Vec<String> = s.split(sep).map(|p| p.to_string()).collect();
        assert_eq!(split_str(s, sep), expected);
    }
}

#[test]
fn default_motd_components() {
    let parts = parse_motd(DEFAULT_MOTD);
    assert_eq!(parts.len(), 3);
    assert_eq!(parts[0].text, "A ");
    assert_eq!(parts[0].color, "gold");
    assert_eq!(parts[1].text, "nano-mc");
    assert_eq!(parts[1].color, "green");
    assert_eq!(parts[2].text, " proxy.");
    assert_eq!(parts[2].color, "gold");
    assert!(!parts[0].bold);
}

#[test]
fn motd_styles() {
    let parts = parse_motd("[{\"text\":\"S\",\"color\":\"gold\",\"bold\":true},{\"text\":\"M\",\"italic\":true,\"underlined\":false,\"strikethrough\":true,\"obfuscated\":true}]");
    assert_eq!(parts.len(), 2);
    assert!(parts[0].bold);
    assert_eq!(parts[1].color, "gray");
    assert!(parts[1].italic);
    assert!(!parts[1].underlined);
    assert!(parts[1].strikethrough);
    assert!(parts[1].obfuscated);
}

#[test]
fn motd_unknown_fields_change_nothing() {
    let c = component_from("{\"text\":\"x\",\"size\":\"big\",\"bold\":maybe,novalue");
    assert_eq!(c.text, "x");
    assert_eq!(c.color, "gray");
    assert!(!c.bold);
}

#[test]
fn motd_too_short() {
    assert_eq!(parse_motd("[]").len(), 1);
    assert_eq!(parse_motd("").len(), 1);
    assert_eq!(parse_motd("")[0].text, "");
}
