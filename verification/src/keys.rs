//! Key handling: the platform key code a typed character maps to, and the
//! translation of a persisted hotkey configuration into the global-shortcut
//! string the registration layer understands.

use vstd::prelude::*;

use vstd::string::{StringExecFns, StrSliceExecFns};

use crate::strutil::str_eq;

verus! {

/// The platform virtual key code a character is typed with, where one
/// exists.  Letters all share one code (the shift modifier selects case).
pub open spec fn spec_char_to_key_code(ch: char) -> Option<u16> {
    if ('a' <= ch && ch <= 'z') || ('A' <= ch && ch <= 'Z') {
        Some(0u16)
    } else if ch == '0' {
        Some(29u16)
    } else if '1' <= ch && ch <= '9' {
        Some((ch as u8 - 31) as u16)
    } else if ch == ' ' {
        Some(49u16)
    } else if ch == '\n' || ch == '\r' {
        Some(36u16)
    } else if ch == '\t' {
        Some(48u16)
    } else if ch == '.' {
        Some(47u16)
    } else if ch == ',' {
        Some(43u16)
    } else if ch == '?' {
        Some(44u16)
    } else if ch == '!' {
        Some(18u16)
    } else if ch == '@' {
        Some(19u16)
    } else if ch == '#' {
        Some(20u16)
    } else if ch == '$' {
        Some(21u16)
    } else if ch == '%' {
        Some(23u16)
    } else if ch == '^' {
        Some(22u16)
    } else if ch == '&' {
        Some(26u16)
    } else if ch == '*' {
        Some(28u16)
    } else if ch == '(' {
        Some(25u16)
    } else if ch == ')' {
        Some(29u16)
    } else if ch == '-' || ch == '_' {
        Some(27u16)
    } else if ch == '=' || ch == '+' {
        Some(24u16)
    } else if ch == '[' || ch == '{' {
        Some(33u16)
    } else if ch == ']' || ch == '}' {
        Some(30u16)
    } else if ch == '\\' || ch == '|' {
        Some(42u16)
    } else if ch == ';' || ch == ':' {
        Some(41u16)
    } else if ch == '\'' || ch == '"' {
        Some(39u16)
    } else if ch == '`' || ch == '~' {
        Some(50u16)
    } else if ch == '/' {
        Some(44u16)
    } else if ch == '<' {
        Some(43u16)
    } else if ch == '>' {
        Some(47u16)
    } else {
        None
    }
}

/// The platform virtual key code for a character, if it can be typed.
pub fn char_to_key_code(ch: char) -> (r: Option<u16>)
    ensures
        r == spec_char_to_key_code(ch),
{
    if ('a' <= ch && ch <= 'z') || ('A' <= ch && ch <= 'Z') {
        Some(0)
    } else if ch == '0' {
        Some(29)
    } else if '1' <= ch && ch <= '9' {
        Some((ch as u8 - 31) as u16)
    } else if ch == ' ' {
        Some(49)
    } else if ch == '\n' || ch == '\r' {
        Some(36)
    } else if ch == '\t' {
        Some(48)
    } else if ch == '.' {
        Some(47)
    } else if ch == ',' {
        Some(43)
    } else if ch == '?' {
        Some(44)
    } else if ch == '!' {
        Some(18)
    } else if ch == '@' {
        Some(19)
    } else if ch == '#' {
        Some(20)
    } else if ch == '$' {
        Some(21)
    } else if ch == '%' {
        Some(23)
    } else if ch == '^' {
        Some(22)
    } else if ch == '&' {
        Some(26)
    } else if ch == '*' {
        Some(28)
    } else if ch == '(' {
        Some(25)
    } else if ch == ')' {
        Some(29)
    } else if ch == '-' || ch == '_' {
        Some(27)
    } else if ch == '=' || ch == '+' {
        Some(24)
    } else if ch == '[' || ch == '{' {
        Some(33)
    } else if ch == ']' || ch == '}' {
        Some(30)
    } else if ch == '\\' || ch == '|' {
        Some(42)
    } else if ch == ';' || ch == ':' {
        Some(41)
    } else if ch == '\'' || ch == '"' {
        Some(39)
    } else if ch == '`' || ch == '~' {
        Some(50)
    } else if ch == '/' {
        Some(44)
    } else if ch == '<' {
        Some(43)
    } else if ch == '>' {
        Some(47)
    } else {
        None
    }
}

/// A persisted push-to-talk hotkey: a key name and its modifier names.
#[derive(Debug, Clone)]
pub struct HotkeyConfig {
    pub key: String,
    pub modifiers: Vec<String>,
}

/// The canonical shortcut name of a modifier, where one is recognized;
/// unrecognized modifiers are dropped.
pub open spec fn spec_modifier(m: Seq<char>) -> Option<Seq<char>> {
    if m == "CmdOrCtrl"@ || m == "CommandOrControl"@ {
        Some("CommandOrControl"@)
    } else if m == "Shift"@ {
        Some("Shift"@)
    } else if m == "Alt"@ || m == "Option"@ {
        Some("Alt"@)
    } else if m == "Ctrl"@ || m == "Control"@ {
        Some("Control"@)
    } else {
        None
    }
}

/// The shortcut name of a key: digits lose their prefix, letter keys keep
/// only the letter, function keys and unknown keys pass through, and the
/// named special keys map to their fixed spellings.
pub open spec fn spec_tauri_key(k: Seq<char>) -> Seq<char> {
    if k == "Digit0"@ {
        "0"@
    } else if k == "Digit1"@ {
        "1"@
    } else if k == "Digit2"@ {
        "2"@
    } else if k == "Digit3"@ {
        "3"@
    } else if k == "Digit4"@ {
        "4"@
    } else if k == "Digit5"@ {
        "5"@
    } else if k == "Digit6"@ {
        "6"@
    } else if k == "Digit7"@ {
        "7"@
    } else if k == "Digit8"@ {
        "8"@
    } else if k == "Digit9"@ {
        "9"@
    } else if k.len() >= 3 && k.subrange(0, 3) == "Key"@ {
        k.skip(3)
    } else if 1 <= k.len() <= 3 && k[0] == 'F' {
        k
    } else if k == "Space"@ {
        "Space"@
    } else if k == "Enter"@ {
        "Enter"@
    } else if k == "Escape"@ {
        "Escape"@
    } else if k == "Backspace"@ {
        "Backspace"@
    } else if k == "Tab"@ {
        "Tab"@
    } else if k == "ArrowUp"@ {
        "Up"@
    } else if k == "ArrowDown"@ {
        "Down"@
    } else if k == "ArrowLeft"@ {
        "Left"@
    } else if k == "ArrowRight"@ {
        "Right"@
    } else if k == "Minus"@ {
        "-"@
    } else if k == "Equal"@ {
        "="@
    } else if k == "BracketLeft"@ {
        "["@
    } else if k == "BracketRight"@ {
        "]"@
    } else if k == "Backslash"@ {
        "\\"@
    } else if k == "Semicolon"@ {
        ";"@
    } else if k == "Quote"@ {
        "'"@
    } else if k == "Comma"@ {
        ","@
    } else if k == "Period"@ {
        "."@
    } else if k == "Slash"@ {
        "/"@
    } else if k == "Backquote"@ {
        "`"@
    } else {
        k
    }
}

/// The views of the modifier names.
pub open spec fn modifier_views(mods: Seq<String>) -> Seq<Seq<char>> {
    Seq::new(mods.len(), |i: int| mods[i]@)
}

/// The shortcut string: the recognized modifiers in order, then the key,
/// joined by `+`.
pub open spec fn spec_shortcut(mods: Seq<Seq<char>>, key: Seq<char>) -> Seq<char>
    decreases mods.len(),
{
    if mods.len() == 0 {
        key
    } else {
        match spec_modifier(mods[0]) {
            Some(p) => p + "+"@ + spec_shortcut(mods.drop_first(), key),
            None => spec_shortcut(mods.drop_first(), key),
        }
    }
}

/// The shortcut name of a key.
fn tauri_key(k: &str) -> (r: String)
    ensures
        r@ == spec_tauri_key(k@),
{
    let digits = [
        "Digit0",
        "Digit1",
        "Digit2",
        "Digit3",
        "Digit4",
        "Digit5",
        "Digit6",
        "Digit7",
        "Digit8",
        "Digit9",
    ];
    if str_eq(k, digits[0]) {
        return "0".to_owned();
    }
    if str_eq(k, digits[1]) {
        return "1".to_owned();
    }
    if str_eq(k, digits[2]) {
        return "2".to_owned();
    }
    if str_eq(k, digits[3]) {
        return "3".to_owned();
    }
    if str_eq(k, digits[4]) {
        return "4".to_owned();
    }
    if str_eq(k, digits[5]) {
        return "5".to_owned();
    }
    if str_eq(k, digits[6]) {
        return "6".to_owned();
    }
    if str_eq(k, digits[7]) {
        return "7".to_owned();
    }
    if str_eq(k, digits[8]) {
        return "8".to_owned();
    }
    if str_eq(k, digits[9]) {
        return "9".to_owned();
    }
    let klen = k.unicode_len();
    if klen >= 3 && str_eq(k.substring_char(0, 3), "Key") {
        return k.substring_char(3, klen).to_owned();
    }
    if 1 <= klen && klen <= 3 && k.get_char(0) == 'F' {
        return k.to_owned();
    }
    if str_eq(k, "Space") {
        return "Space".to_owned();
    }
    if str_eq(k, "Enter") {
        return "Enter".to_owned();
    }
    if str_eq(k, "Escape") {
        return "Escape".to_owned();
    }
    if str_eq(k, "Backspace") {
        return "Backspace".to_owned();
    }
    if str_eq(k, "Tab") {
        return "Tab".to_owned();
    }
    if str_eq(k, "ArrowUp") {
        return "Up".to_owned();
    }
    if str_eq(k, "ArrowDown") {
        return "Down".to_owned();
    }
    if str_eq(k, "ArrowLeft") {
        return "Left".to_owned();
    }
    if str_eq(k, "ArrowRight") {
        return "Right".to_owned();
    }
    if str_eq(k, "Minus") {
        return "-".to_owned();
    }
    if str_eq(k, "Equal") {
        return "=".to_owned();
    }
    if str_eq(k, "BracketLeft") {
        return "[".to_owned();
    }
    if str_eq(k, "BracketRight") {
        return "]".to_owned();
    }
    if str_eq(k, "Backslash") {
        return "\\".to_owned();
    }
    if str_eq(k, "Semicolon") {
        return ";".to_owned();
    }
    if str_eq(k, "Quote") {
        return "'".to_owned();
    }
    if str_eq(k, "Comma") {
        return ",".to_owned();
    }
    if str_eq(k, "Period") {
        return ".".to_owned();
    }
    if str_eq(k, "Slash") {
        return "/".to_owned();
    }
    if str_eq(k, "Backquote") {
        return "`".to_owned();
    }
    k.to_owned()
}

/// Translate a persisted hotkey configuration into the shortcut string the
/// global-shortcut registration layer understands.
pub fn hotkey_config_to_shortcut_string(config: &HotkeyConfig) -> (r: String)
    ensures
        r@ == spec_shortcut(modifier_views(config.modifiers@), spec_tauri_key(config.key@)),
{
    let ghost mods = modifier_views(config.modifiers@);
    let ghost key = spec_tauri_key(config.key@);
    let mut out: String = String::new();
    proof {
        assert(mods.skip(0) =~= mods);
        assert(out@ + spec_shortcut(mods, key) =~= spec_shortcut(mods, key));
    }
    let n = config.modifiers.len();
    let mut i: usize = 0;
    while i < n
        invariant
            n == config.modifiers@.len(),
            mods == modifier_views(config.modifiers@),
            key == spec_tauri_key(config.key@),
            0 <= i <= n,
            out@ + spec_shortcut(mods.skip(i as int), key) == spec_shortcut(mods, key),
        decreases n - i,
    {
        let ghost rest = mods.skip(i as int);
        proof {
            assert(rest[0] == mods[i as int]);
            assert(rest.drop_first() =~= mods.skip(i + 1 as int));
        }
        let m = &config.modifiers[i];
        if str_eq(m.as_str(), "CmdOrCtrl") || str_eq(m.as_str(), "CommandOrControl") {
            out.append("CommandOrControl");
            out.append("+");
        } else if str_eq(m.as_str(), "Shift") {
            out.append("Shift");
            out.append("+");
        } else if str_eq(m.as_str(), "Alt") || str_eq(m.as_str(), "Option") {
            out.append("Alt");
            out.append("+");
        } else if str_eq(m.as_str(), "Ctrl") || str_eq(m.as_str(), "Control") {
            out.append("Control");
            out.append("+");
        }
        proof {
            assert(out@ + spec_shortcut(mods.skip(i + 1 as int), key) =~= spec_shortcut(
                mods,
                key,
            ));
        }
        i = i + 1;
    }
    proof {
        assert(mods.skip(n as int) =~= Seq::<Seq<char>>::empty());
    }
    let kname = tauri_key(config.key.as_str());
    out.append(kname.as_str());
    out
}

} // verus!
