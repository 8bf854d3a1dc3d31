//! How actions and keys are called.

use crate::hotkey_overlay::binds::{
    Action, ActionView, Key, KeyView, ModKey, Modifiers, Trigger, TriggerView,
};
use crate::text;
use vstd::prelude::*;
use vstd::string::*;

verus! {

/// The whitespace that separates words in ASCII text.
pub open spec fn ascii_space(c: char) -> bool {
    c == ' ' || c == '\t' || c == '\n' || c == '\x0C' || c == '\r'
}

fn is_ascii_space(c: char) -> (r: bool)
    ensures
        r == ascii_space(c),
{
    c == ' ' || c == '\t' || c == '\n' || c == '\x0C' || c == '\r'
}

/// Length of the run at the start of `s` in which every character is a space (`spaces`), or none
/// is.
pub open spec fn run_len(s: Seq<char>, spaces: bool) -> nat
    decreases s.len(),
{
    if s.len() == 0 || ascii_space(s[0]) != spaces {
        0
    } else {
        1 + run_len(s.drop_first(), spaces)
    }
}

/// The first word of a command; empty if it has none.
pub open spec fn program_of(command: Seq<char>) -> Seq<char> {
    let rest = command.skip(run_len(command, true) as int);
    rest.take(run_len(rest, false) as int)
}

/// End of the run that starts at `from`.
fn run_end(s: &Vec<char>, from: usize, spaces: bool) -> (end: usize)
    requires
        from <= s@.len(),
    ensures
        end == from + run_len(s@.skip(from as int), spaces),
        from <= end <= s@.len(),
{
    let n: usize = s.len();
    let mut i: usize = from;
    while i < n && is_ascii_space(s[i]) == spaces
        invariant
            n == s@.len(),
            from <= i <= n,
            run_len(s@.skip(from as int), spaces) == (i - from) + run_len(
                s@.skip(i as int),
                spaces,
            ),
        decreases n - i,
    {
        assert(s@.skip(i as int).drop_first() =~= s@.skip(i + 1));
        i = i + 1;
    }
    assert(run_len(s@.skip(i as int), spaces) == 0);
    i
}

fn first_word(command: &String) -> (word: String)
    ensures
        word@ == program_of(command@),
{
    let s: Vec<char> = text::chars_of(command.as_str());
    assert(s@.skip(0) =~= s@);
    let start: usize = run_end(&s, 0, true);
    let end: usize = run_end(&s, start, false);
    let word = command.as_str().substring_char(start, end).to_owned();
    assert(word@ =~= program_of(command@));
    word
}

/// Markup for a program's name.
pub open spec fn spawn_title(program: Seq<char>) -> Seq<char> {
    "Spawn <span face='monospace' bgcolor='#000000'>"@ + program + "</span>"@
}

/// Default title of an action, as markup.
pub open spec fn title_of(action: ActionView) -> Seq<char> {
    match action {
        ActionView::Quit(_) => "Exit niri"@,
        ActionView::ShowHotkeyOverlay => "Show Important Hotkeys"@,
        ActionView::CloseWindow => "Close Focused Window"@,
        ActionView::FocusColumnLeft => "Focus Column to the Left"@,
        ActionView::FocusColumnRight => "Focus Column to the Right"@,
        ActionView::MoveColumnLeft => "Move Column Left"@,
        ActionView::MoveColumnRight => "Move Column Right"@,
        ActionView::FocusWorkspaceDown => "Switch Workspace Down"@,
        ActionView::FocusWorkspaceUp => "Switch Workspace Up"@,
        ActionView::MoveColumnToWorkspaceDown(_) => "Move Column to Workspace Down"@,
        ActionView::MoveColumnToWorkspaceUp(_) => "Move Column to Workspace Up"@,
        ActionView::MoveWindowToWorkspaceDown(_) => "Move Window to Workspace Down"@,
        ActionView::MoveWindowToWorkspaceUp(_) => "Move Window to Workspace Up"@,
        ActionView::SwitchPresetColumnWidth => "Switch Preset Column Widths"@,
        ActionView::MaximizeColumn => "Maximize Column"@,
        ActionView::ConsumeOrExpelWindowLeft => "Consume or Expel Window Left"@,
        ActionView::ConsumeOrExpelWindowRight => "Consume or Expel Window Right"@,
        ActionView::ToggleWindowFloating => "Move Window Between Floating and Tiling"@,
        ActionView::SwitchFocusBetweenFloatingAndTiling => {
            "Switch Focus Between Floating and Tiling"@
        },
        ActionView::ToggleOverview => "Open the Overview"@,
        ActionView::Screenshot(_, _) => "Take a Screenshot"@,
        ActionView::Spawn(args) => spawn_title(if args.len() > 0 { args[0] } else { ""@ }),
        ActionView::SpawnSh(command) => spawn_title(program_of(command)),
        ActionView::Other(_) => "FIXME: Unknown"@,
    }
}

fn spawn_text(program: &str) -> (title: String)
    ensures
        title@ == spawn_title(program@),
{
    let mut title = "Spawn <span face='monospace' bgcolor='#000000'>".to_owned();
    title.append(program);
    title.append("</span>");
    title
}

/// Default title of an action, as markup.
pub fn action_name(action: &Action) -> (title: String)
    ensures
        title@ == title_of(action@),
{
    match action {
        Action::Quit(_) => "Exit niri".to_owned(),
        Action::ShowHotkeyOverlay => "Show Important Hotkeys".to_owned(),
        Action::CloseWindow => "Close Focused Window".to_owned(),
        Action::FocusColumnLeft => "Focus Column to the Left".to_owned(),
        Action::FocusColumnRight => "Focus Column to the Right".to_owned(),
        Action::MoveColumnLeft => "Move Column Left".to_owned(),
        Action::MoveColumnRight => "Move Column Right".to_owned(),
        Action::FocusWorkspaceDown => "Switch Workspace Down".to_owned(),
        Action::FocusWorkspaceUp => "Switch Workspace Up".to_owned(),
        Action::MoveColumnToWorkspaceDown(_) => "Move Column to Workspace Down".to_owned(),
        Action::MoveColumnToWorkspaceUp(_) => "Move Column to Workspace Up".to_owned(),
        Action::MoveWindowToWorkspaceDown(_) => "Move Window to Workspace Down".to_owned(),
        Action::MoveWindowToWorkspaceUp(_) => "Move Window to Workspace Up".to_owned(),
        Action::SwitchPresetColumnWidth => "Switch Preset Column Widths".to_owned(),
        Action::MaximizeColumn => "Maximize Column".to_owned(),
        Action::ConsumeOrExpelWindowLeft => "Consume or Expel Window Left".to_owned(),
        Action::ConsumeOrExpelWindowRight => "Consume or Expel Window Right".to_owned(),
        Action::ToggleWindowFloating => "Move Window Between Floating and Tiling".to_owned(),
        Action::SwitchFocusBetweenFloatingAndTiling => {
            "Switch Focus Between Floating and Tiling".to_owned()
        },
        Action::ToggleOverview => "Open the Overview".to_owned(),
        Action::Screenshot(_, _) => "Take a Screenshot".to_owned(),
        Action::Spawn(args) => if args.len() > 0 {
            spawn_text(args[0].as_str())
        } else {
            spawn_text("")
        },
        // Fairly crude but should get the job done in most cases.
        Action::SpawnSh(command) => spawn_text(first_word(command).as_str()),
        Action::Other(_) => "FIXME: Unknown".to_owned(),
    }
}

/// The symbol on a key, for keysyms whose name spells it out.
pub open spec fn symbol_of(name: Seq<char>) -> Seq<char> {
    if name == "slash"@ {
        "/"@
    } else if name == "comma"@ {
        ","@
    } else if name == "period"@ {
        "."@
    } else if name == "minus"@ {
        "-"@
    } else if name == "equal"@ {
        "="@
    } else if name == "grave"@ {
        "`"@
    } else if name == "bracketleft"@ {
        "["@
    } else if name == "bracketright"@ {
        "]"@
    } else if name == "adiaeresis"@ {
        "Ä"@
    } else if name == "ediaeresis"@ {
        "Ë"@
    } else if name == "idiaeresis"@ {
        "Ï"@
    } else if name == "odiaeresis"@ {
        "Ö"@
    } else if name == "udiaeresis"@ {
        "Ü"@
    } else if name == "ydiaeresis"@ {
        "Ÿ"@
    } else if name == "wdiaeresis"@ {
        "Ẅ"@
    } else {
        name
    }
}

/// The everyday name of a key.
pub open spec fn everyday_name(name: Seq<char>) -> Seq<char> {
    if name == "Next"@ {
        "Page Down"@
    } else if name == "Prior"@ {
        "Page Up"@
    } else if name == "Print"@ {
        "PrtSc"@
    } else if name == "Return"@ {
        "Enter"@
    } else if name == "space"@ {
        "Space"@
    } else {
        name
    }
}

/// A lowercase ASCII letter's uppercase; any other character itself.
pub open spec fn upper(c: char) -> char {
    if 'a' <= c <= 'z' {
        ((c as u32) - 32) as char
    } else {
        c
    }
}

/// A single ASCII letter is shown in upper case; screen readers get no bare symbols.
pub open spec fn pretty_keysym(screen_reader: bool, name: Seq<char>) -> Seq<char> {
    let shown = everyday_name(if screen_reader { name } else { symbol_of(name) });
    if shown.len() == 1 {
        seq![upper(shown[0])]
    } else {
        shown
    }
}

fn symbol(name: &str) -> (shown: &str)
    ensures
        shown@ == symbol_of(name@),
{
    if text::same_text(name, "slash") {
        "/"
    } else if text::same_text(name, "comma") {
        ","
    } else if text::same_text(name, "period") {
        "."
    } else if text::same_text(name, "minus") {
        "-"
    } else if text::same_text(name, "equal") {
        "="
    } else if text::same_text(name, "grave") {
        "`"
    } else if text::same_text(name, "bracketleft") {
        "["
    } else if text::same_text(name, "bracketright") {
        "]"
    } else if text::same_text(name, "adiaeresis") {
        "Ä"
    } else if text::same_text(name, "ediaeresis") {
        "Ë"
    } else if text::same_text(name, "idiaeresis") {
        "Ï"
    } else if text::same_text(name, "odiaeresis") {
        "Ö"
    } else if text::same_text(name, "udiaeresis") {
        "Ü"
    } else if text::same_text(name, "ydiaeresis") {
        "Ÿ"
    } else if text::same_text(name, "wdiaeresis") {
        "Ẅ"
    } else {
        name
    }
}

fn everyday(name: &str) -> (shown: &str)
    ensures
        shown@ == everyday_name(name@),
{
    if text::same_text(name, "Next") {
        "Page Down"
    } else if text::same_text(name, "Prior") {
        "Page Up"
    } else if text::same_text(name, "Print") {
        "PrtSc"
    } else if text::same_text(name, "Return") {
        "Enter"
    } else if text::same_text(name, "space") {
        "Space"
    } else {
        name
    }
}

/// How a keysym's name is shown.
pub fn prettify_keysym_name(screen_reader: bool, name: &str) -> (shown: String)
    ensures
        shown@ == pretty_keysym(screen_reader, name@),
{
    let name: &str = if screen_reader { name } else { symbol(name) };
    let name: &str = everyday(name);
    if name.unicode_len() == 1 {
        let c: char = name.get_char(0);
        if 'a' <= c && c <= 'z' {
            proof {
                reveal_strlit("ABCDEFGHIJKLMNOPQRSTUVWXYZ");
            }
            let k: usize = (c as u32 - 97) as usize;
            let shown = "ABCDEFGHIJKLMNOPQRSTUVWXYZ".substring_char(k, k + 1).to_owned();
            assert(shown@ =~= seq![upper(name@[0])]);
            return shown;
        }
        assert(name@ =~= seq![upper(name@[0])]);
    }
    name.to_owned()
}

/// How a modifier is shown in front of a key.
pub open spec fn modifier_label(modifier: ModKey) -> Seq<char> {
    match modifier {
        ModKey::Super => "Super + "@,
        ModKey::Alt => "Alt + "@,
        ModKey::Shift => "Shift + "@,
        ModKey::Ctrl => "Ctrl + "@,
        ModKey::IsoLevel3Shift => "Mod5 + "@,
        ModKey::IsoLevel5Shift => "Mod3 + "@,
    }
}

/// A modifier's part of a key's name: nothing if it is not asked for, or if it was already named
/// as the compositor's own.
pub open spec fn modifier_part(asked: bool, modifier: ModKey, named: Option<ModKey>) -> Seq<char> {
    if asked && named != Some(modifier) {
        modifier_label(modifier)
    } else {
        seq![]
    }
}

/// How a trigger is shown.
pub open spec fn trigger_label(screen_reader: bool, trigger: TriggerView) -> Seq<char> {
    match trigger {
        TriggerView::Keysym(name) => pretty_keysym(screen_reader, name),
        TriggerView::MouseLeft => "Mouse Left"@,
        TriggerView::MouseRight => "Mouse Right"@,
        TriggerView::MouseMiddle => "Mouse Middle"@,
        TriggerView::MouseBack => "Mouse Back"@,
        TriggerView::MouseForward => "Mouse Forward"@,
        TriggerView::WheelScrollDown => "Wheel Scroll Down"@,
        TriggerView::WheelScrollUp => "Wheel Scroll Up"@,
        TriggerView::WheelScrollLeft => "Wheel Scroll Left"@,
        TriggerView::WheelScrollRight => "Wheel Scroll Right"@,
        TriggerView::TouchpadScrollDown => "Touchpad Scroll Down"@,
        TriggerView::TouchpadScrollUp => "Touchpad Scroll Up"@,
        TriggerView::TouchpadScrollLeft => "Touchpad Scroll Left"@,
        TriggerView::TouchpadScrollRight => "Touchpad Scroll Right"@,
        TriggerView::TabletStylusButton1 => "Tablet Stylus Button 1"@,
        TriggerView::TabletStylusButton2 => "Tablet Stylus Button 2"@,
        TriggerView::TabletStylusButton3 => "Tablet Stylus Button 3"@,
    }
}

/// How a key is shown: the compositor's own modifier, the other modifiers, then the trigger.
pub open spec fn key_label(screen_reader: bool, mod_key: ModKey, key: KeyView) -> Seq<char> {
    let mods = key.modifiers;
    let named = if mods.compositor { Some(mod_key) } else { None };
    modifier_part(mods.compositor, mod_key, None) + modifier_part(
        mods.super_,
        ModKey::Super,
        named,
    ) + modifier_part(mods.ctrl, ModKey::Ctrl, named) + modifier_part(
        mods.shift,
        ModKey::Shift,
        named,
    ) + modifier_part(mods.alt, ModKey::Alt, named) + modifier_part(
        mods.iso_level3_shift,
        ModKey::IsoLevel3Shift,
        named,
    ) + modifier_part(mods.iso_level5_shift, ModKey::IsoLevel5Shift, named) + trigger_label(
        screen_reader,
        key.trigger,
    )
}

fn push_modifier(name: &mut String, asked: bool, modifier: ModKey, named: Option<ModKey>)
    ensures
        final(name)@ == old(name)@ + modifier_part(asked, modifier, named),
{
    let repeated = match named {
        Some(named) => named == modifier,
        None => false,
    };
    if asked && !repeated {
        match modifier {
            ModKey::Super => name.append("Super + "),
            ModKey::Alt => name.append("Alt + "),
            ModKey::Shift => name.append("Shift + "),
            ModKey::Ctrl => name.append("Ctrl + "),
            ModKey::IsoLevel3Shift => name.append("Mod5 + "),
            ModKey::IsoLevel5Shift => name.append("Mod3 + "),
        }
    }
    assert(name@ =~= old(name)@ + modifier_part(asked, modifier, named));
}

fn trigger_name(screen_reader: bool, trigger: &Trigger) -> (name: String)
    ensures
        name@ == trigger_label(screen_reader, trigger@),
{
    match trigger {
        Trigger::Keysym(name) => prettify_keysym_name(screen_reader, name.as_str()),
        Trigger::MouseLeft => "Mouse Left".to_owned(),
        Trigger::MouseRight => "Mouse Right".to_owned(),
        Trigger::MouseMiddle => "Mouse Middle".to_owned(),
        Trigger::MouseBack => "Mouse Back".to_owned(),
        Trigger::MouseForward => "Mouse Forward".to_owned(),
        Trigger::WheelScrollDown => "Wheel Scroll Down".to_owned(),
        Trigger::WheelScrollUp => "Wheel Scroll Up".to_owned(),
        Trigger::WheelScrollLeft => "Wheel Scroll Left".to_owned(),
        Trigger::WheelScrollRight => "Wheel Scroll Right".to_owned(),
        Trigger::TouchpadScrollDown => "Touchpad Scroll Down".to_owned(),
        Trigger::TouchpadScrollUp => "Touchpad Scroll Up".to_owned(),
        Trigger::TouchpadScrollLeft => "Touchpad Scroll Left".to_owned(),
        Trigger::TouchpadScrollRight => "Touchpad Scroll Right".to_owned(),
        Trigger::TabletStylusButton1 => "Tablet Stylus Button 1".to_owned(),
        Trigger::TabletStylusButton2 => "Tablet Stylus Button 2".to_owned(),
        Trigger::TabletStylusButton3 => "Tablet Stylus Button 3".to_owned(),
    }
}

/// How a key is shown.
pub fn key_name(screen_reader: bool, mod_key: ModKey, key: &Key) -> (name: String)
    ensures
        name@ == key_label(screen_reader, mod_key, key@),
{
    let mods = key.modifiers;
    let mut name = String::new();
    // Compositor mod goes first.
    push_modifier(&mut name, mods.compositor, mod_key, None);
    let named: Option<ModKey> = if mods.compositor { Some(mod_key) } else { None };
    push_modifier(&mut name, mods.super_, ModKey::Super, named);
    push_modifier(&mut name, mods.ctrl, ModKey::Ctrl, named);
    push_modifier(&mut name, mods.shift, ModKey::Shift, named);
    push_modifier(&mut name, mods.alt, ModKey::Alt, named);
    push_modifier(&mut name, mods.iso_level3_shift, ModKey::IsoLevel3Shift, named);
    push_modifier(&mut name, mods.iso_level5_shift, ModKey::IsoLevel5Shift, named);
    name.append(trigger_name(screen_reader, &key.trigger).as_str());
    assert(name@ =~= key_label(screen_reader, mod_key, key@));
    name
}

/// The modifiers without one of them.
pub open spec fn without(mods: Modifiers, modifier: ModKey) -> Modifiers {
    match modifier {
        ModKey::Super => Modifiers { super_: false, ..mods },
        ModKey::Alt => Modifiers { alt: false, ..mods },
        ModKey::Shift => Modifiers { shift: false, ..mods },
        ModKey::Ctrl => Modifiers { ctrl: false, ..mods },
        ModKey::IsoLevel3Shift => Modifiers { iso_level3_shift: false, ..mods },
        ModKey::IsoLevel5Shift => Modifiers { iso_level5_shift: false, ..mods },
    }
}

/// A key that asks for the compositor's modifier both as such and by its own name shows it once.
#[verifier::rlimit(30)]
pub proof fn modifier_is_named_once(screen_reader: bool, mod_key: ModKey, key: KeyView)
    requires
        key.modifiers.compositor,
    ensures
        key_label(screen_reader, mod_key, key) == key_label(
            screen_reader,
            mod_key,
            KeyView { modifiers: without(key.modifiers, mod_key), ..key },
        ),
{
}

} // verus!
