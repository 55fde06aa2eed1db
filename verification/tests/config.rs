use initramfs_lib::config::{read_cfg, Cfg, CfgError, Key};

const FULL: &str = "root=abc-1\nswap=def-2\nhome=ghi-3\nkey_file_path=/root/key\n";

fn cfg(root: &str, swap: &str, home: &str, key: Option<&str>) -> Cfg {
    Cfg {
        root_uuid: root.to_string(),
        swap_uuid: swap.to_string(),
        home_uuid: home.to_string(),
        key_file_path: key.map(|k| k.to_string()),
    }
}

#[test]
fn reads_all_keys() {
    assert_eq!(
        read_cfg(FULL, "initramfs.cfg", true),
        Ok(cfg("abc-1", "def-2", "ghi-3", Some("/root/key")))
    );
}

#[test]
fn reads_without_key_file_when_not_encrypting() {
    assert_eq!(
        read_cfg("root=a\nswap=b\nhome=c\n", "x.cfg", false),
        Ok(cfg("a", "b", "c", None))
    );
}

#[test]
fn last_occurrence_wins() {
    let src = "root=first\nswap=s\nroot=second\nhome=h\nkey_file_path=k1\nkey_file_path=k2\nroot=third";
    assert_eq!(
        read_cfg(src, "x.cfg", true),
        Ok(cfg("third", "s", "h", Some("k2")))
    );
}

#[test]
fn skips_blank_lines_and_comments() {
    let src = "\n   \n// a comment\n  // indented comment\nroot=r\n\t\nswap=s\r\nhome=h\nkey_file_path=k\n";
    assert_eq!(read_cfg(src, "x.cfg", true), Ok(cfg("r", "s", "h", Some("k"))));
}

#[test]
fn trims_the_line_but_not_key_or_value() {
    assert_eq!(
        read_cfg("  root=a b \nswap= s\nhome=h=1\n", "x.cfg", false),
        Ok(cfg("a b", " s", "h=1", None))
    );
    assert_eq!(
        read_cfg("root =a\nswap=s\nhome=h\n", "x.cfg", false),
        Err(CfgError::UnknownKey {
            name: "root ".to_string(),
            line: 0,
            content: "root =a".to_string(),
        })
    );
}

#[test]
fn value_may_be_empty() {
    assert_eq!(
        read_cfg("root=\nswap=s\nhome=h\n", "x.cfg", false),
        Ok(cfg("", "s", "h", None))
    );
}

#[test]
fn missing_keys_are_named_in_order() {
    assert_eq!(
        read_cfg("", "p.cfg", true),
        Err(CfgError::MissingKey { key: Key::Root, path: "p.cfg".to_string() })
    );
    assert_eq!(
        read_cfg("root=r\nhome=h\n", "p.cfg", true),
        Err(CfgError::MissingKey { key: Key::Swap, path: "p.cfg".to_string() })
    );
    assert_eq!(
        read_cfg("root=r\nswap=s\n", "p.cfg", true),
        Err(CfgError::MissingKey { key: Key::Home, path: "p.cfg".to_string() })
    );
    assert_eq!(
        read_cfg("root=r\nswap=s\nhome=h\n", "p.cfg", true),
        Err(CfgError::MissingKey { key: Key::KeyFilePath, path: "p.cfg".to_string() })
    );
}

#[test]
fn line_without_separator_is_rejected_with_its_index() {
    assert_eq!(
        read_cfg("root=r\n\n  nonsense here \nswap=s\n", "p.cfg", true),
        Err(CfgError::MissingSeparator { line: 2, content: "  nonsense here ".to_string() })
    );
}

#[test]
fn unrecognised_key_is_named() {
    assert_eq!(
        read_cfg("root=r\nboot=b\nswap\n", "p.cfg", true),
        Err(CfgError::UnknownKey {
            name: "boot".to_string(),
            line: 1,
            content: "boot=b".to_string(),
        })
    );
}

#[test]
fn key_file_path_is_unknown_without_encryption() {
    assert_eq!(
        read_cfg("root=r\nkey_file_path=/k\n", "p.cfg", false),
        Err(CfgError::UnknownKey {
            name: "key_file_path".to_string(),
            line: 1,
            content: "key_file_path=/k".to_string(),
        })
    );
}

#[test]
fn first_bad_line_wins_over_missing_keys() {
    assert_eq!(
        read_cfg("bad\nworse=1\n", "p.cfg", true),
        Err(CfgError::MissingSeparator { line: 0, content: "bad".to_string() })
    );
}

#[test]
fn comment_marker_must_lead_the_trimmed_line() {
    assert_eq!(
        read_cfg("root=r // not a comment\nswap=s\nhome=h\n", "p.cfg", false),
        Ok(cfg("r // not a comment", "s", "h", None))
    );
    assert_eq!(
        read_cfg("/ root=r\n", "p.cfg", false),
        Err(CfgError::UnknownKey {
            name: "/ root".to_string(),
            line: 0,
            content: "/ root=r".to_string(),
        })
    );
}

#[test]
fn unicode_white_space_is_trimmed() {
    assert_eq!(
        read_cfg("\u{a0}\u{3000}root=r\u{2003}\nswap=s\nhome=h\n", "p.cfg", false),
        Ok(cfg("r", "s", "h", None))
    );
}
