use wg_iface::command::{copy_texts, interface_config_text, trim};
use wg_iface::{Command, WgError};

fn owned(items: &[&str]) -> Vec<String> {
    items.iter().map(|s| s.to_string()).collect()
}

#[test]
fn genkey_command() {
    let c = Command::genkey();
    assert_eq!(c, Command { program: "wg".to_string(), args: owned(&["genkey"]), input: None });
}

#[test]
fn pubkey_command_is_fed_the_private_key() {
    let c = Command::pubkey("secret=");
    assert_eq!(
        c,
        Command {
            program: "wg".to_string(),
            args: owned(&["pubkey"]),
            input: Some("secret=".to_string()),
        }
    );
}

#[test]
fn addconf_command_reads_the_configuration_from_stdin() {
    let c = Command::addconf("wg0", "[Peer]\n");
    assert_eq!(
        c,
        Command {
            program: "wg".to_string(),
            args: owned(&["addconf", "wg0", "/dev/stdin"]),
            input: Some("[Peer]\n".to_string()),
        }
    );
}

#[test]
fn route_add_command() {
    let c = Command::route_add("wg0");
    assert_eq!(
        c,
        Command {
            program: "ip".to_string(),
            args: owned(&["route", "add", "10.13.37.0/24", "dev", "wg0"]),
            input: None,
        }
    );
}

#[test]
fn link_del_command() {
    let c = Command::link_del("wg7");
    assert_eq!(
        c,
        Command {
            program: "ip".to_string(),
            args: owned(&["link", "del", "dev", "wg7"]),
            input: None,
        }
    );
}

#[test]
fn interface_config_block() {
    assert_eq!(
        interface_config_text("AAAA..."),
        "[Interface]\nPrivateKey = AAAA...\nListenPort = 1337"
    );
}

#[test]
fn trim_removes_white_space_at_both_ends() {
    assert_eq!(trim("  key=\n"), "key=");
    assert_eq!(trim("key"), "key");
    assert_eq!(trim(""), "");
    assert_eq!(trim(" \t\r\n"), "");
    assert_eq!(trim("\u{a0}a b\u{2003}"), "a b");
    assert_eq!(trim("\n\u{e9}t\u{e9} \n"), "\u{e9}t\u{e9}");
    assert_eq!(trim("x "), "x");
    assert_eq!(trim(" x"), "x");
}

#[test]
fn successful_run_yields_trimmed_output() {
    let c = Command::genkey();
    assert_eq!(c.outcome(true, Some(0), b"abc123=\n"), Ok("abc123=".to_string()));
    assert_eq!(c.outcome(true, Some(0), b""), Ok(String::new()));
}

#[test]
fn invalid_utf8_in_output_is_replaced() {
    let c = Command::genkey();
    assert_eq!(c.outcome(true, Some(0), &[b' ', b'a', 0xFF, b'b', b'\n']), Ok("a\u{fffd}b".to_string()));
    assert_eq!(c.outcome(true, None, &[0xC3, 0xA9]), Ok("\u{e9}".to_string()));
}

#[test]
fn failed_run_yields_command_failed_and_no_output() {
    let c = Command::addconf("wg0", "x");
    assert_eq!(
        c.outcome(false, Some(1), b"partial output"),
        Err(WgError::CommandFailed {
            program: "wg".to_string(),
            args: owned(&["addconf", "wg0", "/dev/stdin"]),
            exit: Some(1),
        })
    );
    assert_eq!(
        Command::genkey().outcome(false, None, b""),
        Err(WgError::CommandFailed {
            program: "wg".to_string(),
            args: owned(&["genkey"]),
            exit: None,
        })
    );
    assert_eq!(
        c.failed(Some(127)),
        WgError::CommandFailed {
            program: "wg".to_string(),
            args: owned(&["addconf", "wg0", "/dev/stdin"]),
            exit: Some(127),
        }
    );
}

#[test]
fn texts_are_copied() {
    let args = owned(&["a", "", "c d"]);
    assert_eq!(copy_texts(&args), args);
    assert_eq!(copy_texts(&Vec::new()), Vec::<String>::new());
}

fn listed_as_white_space(c: char) -> bool {
    let u = c as u32;
    (0x0009..=0x000D).contains(&u)
        || u == 0x0020
        || u == 0x0085
        || u == 0x00A0
        || u == 0x1680
        || (0x2000..=0x200A).contains(&u)
        || u == 0x2028
        || u == 0x2029
        || u == 0x202F
        || u == 0x205F
        || u == 0x3000
}

#[test]
fn white_space_is_the_listed_characters_and_no_other() {
    let mut count = 0;
    for u in 0..=0x10FFFFu32 {
        if let Some(c) = char::from_u32(u) {
            let mut text = String::new();
            text.push(c);
            let trimmed = trim(&text);
            if listed_as_white_space(c) {
                count += 1;
                assert_eq!(trimmed, "", "U+{:04X} is white space", u);
            } else {
                assert_eq!(trimmed, text, "U+{:04X} is not white space", u);
            }
        }
    }
    assert_eq!(count, 25);
}

#[test]
fn line_end_after_a_key_is_removed() {
    let key = "mM3Cs/8hTqa0UTcGqYNTDI0OWeVp5sL3qZ3hXGT1V0k=";
    assert_eq!(trim(&format!("{}\n", key)), key);
    assert_eq!(trim(&format!("{}\r\n", key)), key);
    assert_eq!(Command::genkey().outcome(true, Some(0), format!("{}\n", key).as_bytes()), Ok(key.to_string()));
}
