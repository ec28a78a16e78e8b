//! The keyboard hook's decisions, and the Trigger Key in words.
//!
//! The hook callback touches nothing but a handful of atomics, inside a 300 ms budget that Windows
//! enforces by silently removing the hook. What it decides about one keyboard event is stated here
//! as [`key_step`], a function of those values: whether the event counts as a physical key-down,
//! whether it is a fresh Trigger Press, and whether it is swallowed. Three rules of one-action-per-
//! press live in it and are proved below: injected events are never counted, auto-repeat is never a
//! new press, and nothing is counted or swallowed unless a Craft Session is armed.

use vstd::prelude::*;

use crate::text::{dec, push_dec};

verus! {

// ── The Trigger Key in words ───────────────────────────────────────────────────────────────────

/// The default Trigger Key, `[` (`VK_OEM_4`), the only one with on-device evidence behind it.
pub const DEFAULT_TRIGGER_VK: u32 = 0xDB;

/// An upper-case hexadecimal digit.
pub open spec fn hex_upper(d: nat) -> char {
    if d < 10 {
        (d + '0' as nat) as char
    } else {
        (d - 10 + 'A' as nat) as char
    }
}

/// `n` in upper-case hexadecimal with at least two digits, as `{:02X}` prints it.
pub open spec fn hex2(n: nat) -> Seq<char>
    decreases n,
{
    if n < 256 {
        seq![hex_upper(n / 16), hex_upper(n % 16)]
    } else {
        hex2(n / 16).push(hex_upper(n % 16))
    }
}

/// The name of a key the table knows by name.
pub open spec fn key_name(vk: u32) -> Option<Seq<char>> {
    if vk == 0x08 {
        Some("Backspace"@)
    } else if vk == 0x09 {
        Some("Tab"@)
    } else if vk == 0x0D {
        Some("Enter"@)
    } else if vk == 0x13 {
        Some("Pause"@)
    } else if vk == 0x14 {
        Some("Caps Lock"@)
    } else if vk == 0x1B {
        Some("Esc"@)
    } else if vk == 0x20 {
        Some("Space"@)
    } else if vk == 0x21 {
        Some("Page Up"@)
    } else if vk == 0x22 {
        Some("Page Down"@)
    } else if vk == 0x23 {
        Some("End"@)
    } else if vk == 0x24 {
        Some("Home"@)
    } else if vk == 0x25 {
        Some("Left"@)
    } else if vk == 0x26 {
        Some("Up"@)
    } else if vk == 0x27 {
        Some("Right"@)
    } else if vk == 0x28 {
        Some("Down"@)
    } else if vk == 0x2D {
        Some("Insert"@)
    } else if vk == 0x2E {
        Some("Delete"@)
    } else if vk == 0x5B {
        Some("Left Windows"@)
    } else if vk == 0x5D {
        Some("Menu"@)
    } else if vk == 0x6A {
        Some("Numpad *"@)
    } else if vk == 0x6B {
        Some("Numpad +"@)
    } else if vk == 0x6D {
        Some("Numpad -"@)
    } else if vk == 0x6E {
        Some("Numpad ."@)
    } else if vk == 0x6F {
        Some("Numpad /"@)
    } else if vk == 0x90 {
        Some("Num Lock"@)
    } else if vk == 0x91 {
        Some("Scroll Lock"@)
    } else if vk == 0xA0 {
        Some("Left Shift"@)
    } else if vk == 0xA1 {
        Some("Right Shift"@)
    } else if vk == 0xA2 {
        Some("Left Ctrl"@)
    } else if vk == 0xA3 {
        Some("Right Ctrl"@)
    } else if vk == 0xA4 {
        Some("Left Alt"@)
    } else if vk == 0xA5 {
        Some("Right Alt"@)
    } else if vk == 0xBA {
        Some("; :"@)
    } else if vk == 0xBB {
        Some("= +"@)
    } else if vk == 0xBC {
        Some(", <"@)
    } else if vk == 0xBD {
        Some("- _"@)
    } else if vk == 0xBE {
        Some(". >"@)
    } else if vk == 0xBF {
        Some("/ ?"@)
    } else if vk == 0xC0 {
        Some("` ~"@)
    } else if vk == 0xDB {
        Some("[ {"@)
    } else if vk == 0xDC {
        Some("\\ |"@)
    } else if vk == 0xDD {
        Some("] }"@)
    } else if vk == 0xDE {
        Some("' \""@)
    } else {
        None
    }
}

/// A key in words, then its code: `[ { (0xDB)`. Digits, letters, the numeric keypad and the function
/// keys are spelled out; anything unknown still reads back as a code the human can act on.
pub open spec fn vk_text(vk: u32) -> Seq<char> {
    let code = " (0x"@ + hex2(vk as nat) + ")"@;
    if vk == 0 {
        "none"@
    } else if 0x30 <= vk <= 0x39 {
        seq![((vk - 0x30) + '0' as int) as char] + code
    } else if 0x41 <= vk <= 0x5A {
        seq![((vk - 0x41) + 'A' as int) as char] + code
    } else if 0x60 <= vk <= 0x69 {
        "Numpad "@ + dec((vk - 0x60) as nat) + code
    } else if 0x70 <= vk <= 0x87 {
        "F"@ + dec((vk - 0x6F) as nat) + code
    } else {
        match key_name(vk) {
            Some(name) => name + code,
            None => "unknown"@ + code,
        }
    }
}

fn hex_upper_of(d: u32) -> (c: char)
    requires
        d < 16,
    ensures
        c == hex_upper(d as nat),
{
    match d {
        0 => '0',
        1 => '1',
        2 => '2',
        3 => '3',
        4 => '4',
        5 => '5',
        6 => '6',
        7 => '7',
        8 => '8',
        9 => '9',
        10 => 'A',
        11 => 'B',
        12 => 'C',
        13 => 'D',
        14 => 'E',
        _ => 'F',
    }
}

fn push_hex2(s: &mut String, n: u32)
    ensures
        final(s)@ == old(s)@ + hex2(n as nat),
    decreases n,
{
    if n < 256 {
        s.push(hex_upper_of(n / 16));
        s.push(hex_upper_of(n % 16));
    } else {
        push_hex2(s, n / 16);
        s.push(hex_upper_of(n % 16));
    }
    assert(s@ =~= old(s)@ + hex2(n as nat));
}

fn key_name_of(vk: u32) -> (r: Option<&'static str>)
    ensures
        match r {
            Some(n) => key_name(vk) == Some(n@),
            None => key_name(vk) is None,
        },
{
    match vk {
        0x08 => Some("Backspace"),
        0x09 => Some("Tab"),
        0x0D => Some("Enter"),
        0x13 => Some("Pause"),
        0x14 => Some("Caps Lock"),
        0x1B => Some("Esc"),
        0x20 => Some("Space"),
        0x21 => Some("Page Up"),
        0x22 => Some("Page Down"),
        0x23 => Some("End"),
        0x24 => Some("Home"),
        0x25 => Some("Left"),
        0x26 => Some("Up"),
        0x27 => Some("Right"),
        0x28 => Some("Down"),
        0x2D => Some("Insert"),
        0x2E => Some("Delete"),
        0x5B => Some("Left Windows"),
        0x5D => Some("Menu"),
        0x6A => Some("Numpad *"),
        0x6B => Some("Numpad +"),
        0x6D => Some("Numpad -"),
        0x6E => Some("Numpad ."),
        0x6F => Some("Numpad /"),
        0x90 => Some("Num Lock"),
        0x91 => Some("Scroll Lock"),
        0xA0 => Some("Left Shift"),
        0xA1 => Some("Right Shift"),
        0xA2 => Some("Left Ctrl"),
        0xA3 => Some("Right Ctrl"),
        0xA4 => Some("Left Alt"),
        0xA5 => Some("Right Alt"),
        0xBA => Some("; :"),
        0xBB => Some("= +"),
        0xBC => Some(", <"),
        0xBD => Some("- _"),
        0xBE => Some(". >"),
        0xBF => Some("/ ?"),
        0xC0 => Some("` ~"),
        0xDB => Some("[ {"),
        0xDC => Some("\\ |"),
        0xDD => Some("] }"),
        0xDE => Some("' \""),
        _ => None,
    }
}

/// A key in words, then its code: `[ { (0xDB)`.
pub fn describe_vk(vk: u32) -> (s: String)
    ensures
        s@ == vk_text(vk),
{
    if vk == 0 {
        return String::from_str("none");
    }
    let mut s = String::new();
    if 0x30 <= vk && vk <= 0x39 {
        s.push(digit_or_letter(vk - 0x30, '0'));
    } else if 0x41 <= vk && vk <= 0x5A {
        s.push(digit_or_letter(vk - 0x41, 'A'));
    } else if 0x60 <= vk && vk <= 0x69 {
        s.append("Numpad ");
        push_dec(&mut s, (vk - 0x60) as u64);
    } else if 0x70 <= vk && vk <= 0x87 {
        s.append("F");
        push_dec(&mut s, (vk - 0x6F) as u64);
    } else {
        match key_name_of(vk) {
            Some(name) => s.append(name),
            None => s.append("unknown"),
        }
    }
    let ghost head = s@;
    s.append(" (0x");
    push_hex2(&mut s, vk);
    s.append(")");
    assert(s@ =~= head + (" (0x"@ + hex2(vk as nat) + ")"@));
    s
}

/// The character `offset` places after `first`, for a digit or a letter key.
fn digit_or_letter(offset: u32, first: char) -> (c: char)
    requires
        first == '0' ==> offset < 10,
        first == 'A' ==> offset < 26,
        first == '0' || first == 'A',
    ensures
        c == ((offset + first as int) as char),
{
    if first == '0' {
        match offset {
            0 => '0',
            1 => '1',
            2 => '2',
            3 => '3',
            4 => '4',
            5 => '5',
            6 => '6',
            7 => '7',
            8 => '8',
            _ => '9',
        }
    } else {
        match offset {
            0 => 'A',
            1 => 'B',
            2 => 'C',
            3 => 'D',
            4 => 'E',
            5 => 'F',
            6 => 'G',
            7 => 'H',
            8 => 'I',
            9 => 'J',
            10 => 'K',
            11 => 'L',
            12 => 'M',
            13 => 'N',
            14 => 'O',
            15 => 'P',
            16 => 'Q',
            17 => 'R',
            18 => 'S',
            19 => 'T',
            20 => 'U',
            21 => 'V',
            22 => 'W',
            23 => 'X',
            24 => 'Y',
            _ => 'Z',
        }
    }
}

// ── The hook callback ──────────────────────────────────────────────────────────────────────────

/// What the hook callback reads and writes: the Trigger Key (`0` disables it), whether a Craft
/// Session is armed (which is also the suppression flag), the Trigger Key's own up/down state, the
/// count of fresh Trigger Presses seen while armed, and the count of physical key-downs seen at all.
#[derive(Clone, Copy, Debug, PartialEq, Eq, Structural)]
pub struct HookState {
    pub trigger_vk: u32,
    pub armed: bool,
    pub trigger_down: bool,
    pub press_seq: u32,
    pub keys_seen: u32,
}

/// One keyboard event as the hook sees it: whether Windows handed it over for action, whether it
/// is a key-down, whether it was injected (our own input coming back), and which key.
#[derive(Clone, Copy, Debug, PartialEq, Eq, Structural)]
pub struct KeyEvent {
    pub action: bool,
    pub is_down: bool,
    pub injected: bool,
    pub vk: u32,
}

/// What becomes of the event.
#[derive(Clone, Copy, Debug, PartialEq, Eq, Structural)]
pub enum HookAction {
    /// Hand it on to the next hook and, eventually, the game.
    PassOn,
    /// It dies here; the game never sees it.
    Swallow,
}

/// One more, wrapping as an atomic counter does.
pub open spec fn bump(x: u32) -> u32 {
    if x == u32::MAX {
        0
    } else {
        (x + 1) as u32
    }
}

/// What one keyboard event does to the hook's values, and whether it is swallowed.
pub open spec fn key_step(s: HookState, k: KeyEvent) -> (HookState, HookAction) {
    if !k.action {
        (s, HookAction::PassOn)
    } else {
        let s1 = HookState {
            keys_seen: if k.is_down && !k.injected {
                bump(s.keys_seen)
            } else {
                s.keys_seen
            },
            ..s
        };
        if s.trigger_vk == 0 || k.vk != s.trigger_vk || k.injected {
            (s1, HookAction::PassOn)
        } else {
            let s2 = if k.is_down {
                HookState {
                    trigger_down: true,
                    press_seq: if !s.trigger_down && s.armed {
                        bump(s.press_seq)
                    } else {
                        s.press_seq
                    },
                    ..s1
                }
            } else {
                HookState { trigger_down: false, ..s1 }
            };
            (
                s2,
                if s.armed {
                    HookAction::Swallow
                } else {
                    HookAction::PassOn
                },
            )
        }
    }
}

/// Decide one keyboard event.
pub fn on_key(s: HookState, k: KeyEvent) -> (r: (HookState, HookAction))
    ensures
        r == key_step(s, k),
{
    if !k.action {
        return (s, HookAction::PassOn);
    }
    let mut next = s;
    if k.is_down && !k.injected {
        next.keys_seen = s.keys_seen.wrapping_add(1);
    }
    if s.trigger_vk == 0 || k.vk != s.trigger_vk || k.injected {
        return (next, HookAction::PassOn);
    }
    if k.is_down {
        if !s.trigger_down && s.armed {
            next.press_seq = s.press_seq.wrapping_add(1);
        }
        next.trigger_down = true;
    } else {
        next.trigger_down = false;
    }
    (
        next,
        if s.armed {
            HookAction::Swallow
        } else {
            HookAction::PassOn
        },
    )
}

/// Choose the Trigger Key. `0` disables the trigger entirely. Its up/down state starts afresh.
pub fn with_trigger(s: HookState, vk: u32) -> (r: HookState)
    ensures
        r == (HookState { trigger_vk: vk, trigger_down: false, ..s }),
{
    HookState { trigger_vk: vk, trigger_down: false, ..s }
}

/// The presses between the last one served and the one about to be served arrived while a cycle
/// was in flight: they were dropped rather than queued.
pub fn presses_between(handled: u32, seq: u32) -> (n: u32)
    requires
        handled < seq,
    ensures
        n == seq - handled - 1,
{
    seq - handled - 1
}

/// Our own input never counts: an injected event neither counts as a key-down nor as a press, and
/// is never swallowed.
pub proof fn law_injected_input_never_counts(s: HookState, k: KeyEvent)
    requires
        k.injected,
    ensures
        key_step(s, k).0.press_seq == s.press_seq,
        key_step(s, k).0.keys_seen == s.keys_seen,
        key_step(s, k).1 == HookAction::PassOn,
{
}

/// Auto-repeat is not a press: while the Trigger Key is held, further key-downs count nothing.
pub proof fn law_auto_repeat_is_not_a_press(s: HookState, k: KeyEvent)
    requires
        s.trigger_down,
    ensures
        key_step(s, k).0.press_seq == s.press_seq,
{
}

/// Nothing is counted or swallowed unless a Craft Session is armed: `Idle` leaves the Trigger Key
/// alone system-wide.
pub proof fn law_unarmed_hook_is_inert(s: HookState, k: KeyEvent)
    requires
        !s.armed,
    ensures
        key_step(s, k).0.press_seq == s.press_seq,
        key_step(s, k).1 == HookAction::PassOn,
{
}

/// A physical press of the Trigger Key while armed counts exactly once, and is swallowed; holding
/// it down then counts nothing more until it is released.
pub proof fn law_one_count_per_physical_press(s: HookState, k: KeyEvent)
    requires
        s.armed,
        !s.trigger_down,
        s.trigger_vk != 0,
        k == (KeyEvent { action: true, is_down: true, injected: false, vk: s.trigger_vk }),
    ensures
        key_step(s, k).0.press_seq == bump(s.press_seq),
        key_step(s, k).1 == HookAction::Swallow,
        key_step(key_step(s, k).0, k).0.press_seq == key_step(s, k).0.press_seq,
{
}

/// Only the Trigger Key is ever swallowed, and only while armed.
pub proof fn law_only_the_trigger_is_swallowed(s: HookState, k: KeyEvent)
    ensures
        key_step(s, k).1 == HookAction::Swallow <==> (k.action && !k.injected && s.trigger_vk != 0
            && k.vk == s.trigger_vk && s.armed),
{
}

/// A Trigger Key of `0` disables the trigger entirely: whatever the key and whether or not a Craft
/// Session is armed, nothing is counted as a press, nothing is swallowed, and the key's up/down
/// state is left alone.
pub proof fn law_no_trigger_is_inert(s: HookState, k: KeyEvent)
    requires
        s.trigger_vk == 0,
    ensures
        key_step(s, k).1 == HookAction::PassOn,
        key_step(s, k).0.press_seq == s.press_seq,
        key_step(s, k).0.trigger_down == s.trigger_down,
        key_step(s, k).0.trigger_vk == 0,
{
}

} // verus!
