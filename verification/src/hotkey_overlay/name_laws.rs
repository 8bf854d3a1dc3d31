//! What actions and keys are called, name by name.

use crate::hotkey_overlay::binds::{ActionView, KeyView, ModKey, TriggerView};
use crate::hotkey_overlay::names;
use vstd::prelude::*;
use vstd::string::*;

verus! {

/// Every action with a row of its own is called by what it does.
pub proof fn actions_are_called_by_what_they_do(action: ActionView)
    ensures
        action is Quit ==> names::title_of(action) == "Exit niri"@,
        action is ShowHotkeyOverlay ==> names::title_of(action) == "Show Important Hotkeys"@,
        action is CloseWindow ==> names::title_of(action) == "Close Focused Window"@,
        action is FocusColumnLeft ==> names::title_of(action) == "Focus Column to the Left"@,
        action is FocusColumnRight ==> names::title_of(action) == "Focus Column to the Right"@,
        action is MoveColumnLeft ==> names::title_of(action) == "Move Column Left"@,
        action is MoveColumnRight ==> names::title_of(action) == "Move Column Right"@,
        action is FocusWorkspaceDown ==> names::title_of(action) == "Switch Workspace Down"@,
        action is FocusWorkspaceUp ==> names::title_of(action) == "Switch Workspace Up"@,
        action is MoveColumnToWorkspaceDown ==> names::title_of(action) == "Move Column to Workspace Down"@,
        action is MoveColumnToWorkspaceUp ==> names::title_of(action) == "Move Column to Workspace Up"@,
        action is MoveWindowToWorkspaceDown ==> names::title_of(action) == "Move Window to Workspace Down"@,
        action is MoveWindowToWorkspaceUp ==> names::title_of(action) == "Move Window to Workspace Up"@,
        action is SwitchPresetColumnWidth ==> names::title_of(action) == "Switch Preset Column Widths"@,
        action is MaximizeColumn ==> names::title_of(action) == "Maximize Column"@,
        action is ConsumeOrExpelWindowLeft ==> names::title_of(action) == "Consume or Expel Window Left"@,
        action is ConsumeOrExpelWindowRight ==> names::title_of(action) == "Consume or Expel Window Right"@,
        action is ToggleWindowFloating ==> names::title_of(action) == "Move Window Between Floating and Tiling"@,
        action is SwitchFocusBetweenFloatingAndTiling ==> names::title_of(action) == "Switch Focus Between Floating and Tiling"@,
        action is ToggleOverview ==> names::title_of(action) == "Open the Overview"@,
        action is Screenshot ==> names::title_of(action) == "Take a Screenshot"@,
        action is Other ==> names::title_of(action) == "FIXME: Unknown"@,
{
}

/// The text is ASCII white space.
pub open spec fn ascii_blank(s: Seq<char>) -> bool {
    forall|i: int|
        0 <= i < s.len() ==> (#[trigger] s[i] == ' ' || s[i] == '\t' || s[i] == '\n' || s[i]
            == '\x0C' || s[i] == '\r')
}

/// The text has no ASCII white space.
pub open spec fn ascii_solid(s: Seq<char>) -> bool {
    forall|i: int|
        0 <= i < s.len() ==> #[trigger] s[i] != ' ' && s[i] != '\t' && s[i] != '\n' && s[i]
            != '\x0C' && s[i] != '\r'
}

proof fn run_is_measured(run: Seq<char>, rest: Seq<char>, spaces: bool)
    requires
        spaces ==> ascii_blank(run),
        !spaces ==> ascii_solid(run),
        rest.len() > 0 ==> names::ascii_space(rest[0]) != spaces,
    ensures
        names::run_len(run + rest, spaces) == run.len(),
    decreases run.len(),
{
    if run.len() > 0 {
        let shorter = run.drop_first();
        assert forall|i: int| 0 <= i < shorter.len() implies #[trigger] shorter[i] == run[i + 1] by {
        }
        run_is_measured(shorter, rest, spaces);
        assert((run + rest)[0] == run[0]);
        assert((run + rest).drop_first() =~= shorter + rest);
    } else {
        assert(run + rest =~= rest);
    }
}

/// A program is called by its first argument, a shell command by its first word: what stands
/// before any white space and after any in front.
pub proof fn programs_are_called_by_their_first_word(
    args: Seq<Seq<char>>,
    pad: Seq<char>,
    word: Seq<char>,
    rest: Seq<char>,
)
    requires
        ascii_blank(pad),
        ascii_solid(word),
        rest.len() > 0 ==> word.len() > 0 && !ascii_solid(rest.take(1)),
    ensures
        args.len() > 0 ==> names::title_of(ActionView::Spawn(args))
            == "Spawn <span face='monospace' bgcolor='#000000'>"@ + args[0] + "</span>"@,
        args.len() == 0 ==> names::title_of(ActionView::Spawn(args))
            == "Spawn <span face='monospace' bgcolor='#000000'>"@ + "</span>"@,
        names::title_of(ActionView::SpawnSh(pad + word + rest))
            == "Spawn <span face='monospace' bgcolor='#000000'>"@ + word + "</span>"@,
{
    let command = pad + word + rest;
    reveal_strlit("");
    assert("Spawn <span face='monospace' bgcolor='#000000'>"@ + ""@ + "</span>"@
        =~= "Spawn <span face='monospace' bgcolor='#000000'>"@ + "</span>"@);
    if rest.len() > 0 {
        assert(rest.take(1)[0] == rest[0]);
        assert(names::ascii_space(rest[0]));
    }
    if word.len() > 0 {
        assert((word + rest)[0] == word[0]);
        assert(!names::ascii_space(word[0]));
    } else {
        assert(word + rest =~= Seq::<char>::empty());
    }
    run_is_measured(pad, word + rest, true);
    assert(command =~= pad + (word + rest));
    assert(command.skip(pad.len() as int) =~= word + rest);
    run_is_measured(word, rest, false);
    assert((word + rest).take(word.len() as int) =~= word);
}

/// Triggers other than keys are called by the device and what is done with it.
pub proof fn triggers_are_called_by_device(screen_reader: bool, trigger: TriggerView)
    ensures
        trigger is MouseLeft ==> names::trigger_label(screen_reader, trigger) == "Mouse Left"@,
        trigger is MouseRight ==> names::trigger_label(screen_reader, trigger) == "Mouse Right"@,
        trigger is MouseMiddle ==> names::trigger_label(screen_reader, trigger) == "Mouse Middle"@,
        trigger is MouseBack ==> names::trigger_label(screen_reader, trigger) == "Mouse Back"@,
        trigger is MouseForward ==> names::trigger_label(screen_reader, trigger) == "Mouse Forward"@,
        trigger is WheelScrollDown ==> names::trigger_label(screen_reader, trigger) == "Wheel Scroll Down"@,
        trigger is WheelScrollUp ==> names::trigger_label(screen_reader, trigger) == "Wheel Scroll Up"@,
        trigger is WheelScrollLeft ==> names::trigger_label(screen_reader, trigger) == "Wheel Scroll Left"@,
        trigger is WheelScrollRight ==> names::trigger_label(screen_reader, trigger) == "Wheel Scroll Right"@,
        trigger is TouchpadScrollDown ==> names::trigger_label(screen_reader, trigger) == "Touchpad Scroll Down"@,
        trigger is TouchpadScrollUp ==> names::trigger_label(screen_reader, trigger) == "Touchpad Scroll Up"@,
        trigger is TouchpadScrollLeft ==> names::trigger_label(screen_reader, trigger) == "Touchpad Scroll Left"@,
        trigger is TouchpadScrollRight ==> names::trigger_label(screen_reader, trigger) == "Touchpad Scroll Right"@,
        trigger is TabletStylusButton1 ==> names::trigger_label(screen_reader, trigger) == "Tablet Stylus Button 1"@,
        trigger is TabletStylusButton2 ==> names::trigger_label(screen_reader, trigger) == "Tablet Stylus Button 2"@,
        trigger is TabletStylusButton3 ==> names::trigger_label(screen_reader, trigger) == "Tablet Stylus Button 3"@,
        trigger matches TriggerView::Keysym(name) ==> names::trigger_label(screen_reader, trigger)
            == names::pretty_keysym(screen_reader, name),
{
}

/// The keysym's name spells out the symbol on the key.
pub open spec fn spells_a_symbol(name: Seq<char>) -> bool {
    ||| name == "slash"@
    ||| name == "comma"@
    ||| name == "period"@
    ||| name == "minus"@
    ||| name == "equal"@
    ||| name == "grave"@
    ||| name == "bracketleft"@
    ||| name == "bracketright"@
    ||| name == "adiaeresis"@
    ||| name == "ediaeresis"@
    ||| name == "idiaeresis"@
    ||| name == "odiaeresis"@
    ||| name == "udiaeresis"@
    ||| name == "ydiaeresis"@
    ||| name == "wdiaeresis"@
}

/// The keysym's name is not what the key is called every day.
pub open spec fn unusual(name: Seq<char>) -> bool {
    ||| name == "Next"@
    ||| name == "Prior"@
    ||| name == "Print"@
    ||| name == "Return"@
    ||| name == "space"@
}

/// Keys with a symbol show it on screen, and are read out by name.
pub proof fn symbols_are_shown_and_names_read_out()
    ensures
        names::pretty_keysym(false, "slash"@) == "/"@,
        names::pretty_keysym(false, "comma"@) == ","@,
        names::pretty_keysym(false, "period"@) == "."@,
        names::pretty_keysym(false, "minus"@) == "-"@,
        names::pretty_keysym(false, "equal"@) == "="@,
        names::pretty_keysym(false, "grave"@) == "`"@,
        names::pretty_keysym(false, "bracketleft"@) == "["@,
        names::pretty_keysym(false, "bracketright"@) == "]"@,
        names::pretty_keysym(false, "adiaeresis"@) == "Ä"@,
        names::pretty_keysym(false, "ediaeresis"@) == "Ë"@,
        names::pretty_keysym(false, "idiaeresis"@) == "Ï"@,
        names::pretty_keysym(false, "odiaeresis"@) == "Ö"@,
        names::pretty_keysym(false, "udiaeresis"@) == "Ü"@,
        names::pretty_keysym(false, "ydiaeresis"@) == "Ÿ"@,
        names::pretty_keysym(false, "wdiaeresis"@) == "Ẅ"@,
        names::pretty_keysym(true, "slash"@) == "slash"@,
        names::pretty_keysym(true, "comma"@) == "comma"@,
        names::pretty_keysym(true, "period"@) == "period"@,
        names::pretty_keysym(true, "minus"@) == "minus"@,
        names::pretty_keysym(true, "equal"@) == "equal"@,
        names::pretty_keysym(true, "grave"@) == "grave"@,
        names::pretty_keysym(true, "bracketleft"@) == "bracketleft"@,
        names::pretty_keysym(true, "bracketright"@) == "bracketright"@,
        names::pretty_keysym(true, "adiaeresis"@) == "adiaeresis"@,
        names::pretty_keysym(true, "ediaeresis"@) == "ediaeresis"@,
        names::pretty_keysym(true, "idiaeresis"@) == "idiaeresis"@,
        names::pretty_keysym(true, "odiaeresis"@) == "odiaeresis"@,
        names::pretty_keysym(true, "udiaeresis"@) == "udiaeresis"@,
        names::pretty_keysym(true, "ydiaeresis"@) == "ydiaeresis"@,
        names::pretty_keysym(true, "wdiaeresis"@) == "wdiaeresis"@,
{
    reveal_strlit("slash");
    reveal_strlit("comma");
    reveal_strlit("period");
    reveal_strlit("minus");
    reveal_strlit("equal");
    reveal_strlit("grave");
    reveal_strlit("bracketleft");
    reveal_strlit("bracketright");
    reveal_strlit("adiaeresis");
    reveal_strlit("ediaeresis");
    reveal_strlit("idiaeresis");
    reveal_strlit("odiaeresis");
    reveal_strlit("udiaeresis");
    reveal_strlit("ydiaeresis");
    reveal_strlit("wdiaeresis");
    reveal_strlit("/");
    reveal_strlit(",");
    reveal_strlit(".");
    reveal_strlit("-");
    reveal_strlit("=");
    reveal_strlit("`");
    reveal_strlit("[");
    reveal_strlit("]");
    reveal_strlit("Ä");
    reveal_strlit("Ë");
    reveal_strlit("Ï");
    reveal_strlit("Ö");
    reveal_strlit("Ü");
    reveal_strlit("Ÿ");
    reveal_strlit("Ẅ");
    reveal_strlit("Next");
    reveal_strlit("Prior");
    reveal_strlit("Print");
    reveal_strlit("Return");
    reveal_strlit("space");
    reveal_strlit("Page Down");
    reveal_strlit("Page Up");
    reveal_strlit("PrtSc");
    reveal_strlit("Enter");
    reveal_strlit("Space");
    assert("slash"@[0] == 's' && "slash"@[1] == 'l');
    assert("comma"@[0] == 'c' && "comma"@[1] == 'o');
    assert("period"@[0] == 'p' && "period"@[1] == 'e');
    assert("minus"@[0] == 'm' && "minus"@[1] == 'i');
    assert("equal"@[0] == 'e' && "equal"@[1] == 'q');
    assert("grave"@[0] == 'g' && "grave"@[1] == 'r');
    assert("bracketleft"@[0] == 'b' && "bracketleft"@[1] == 'r');
    assert("bracketright"@[0] == 'b' && "bracketright"@[1] == 'r');
    assert("adiaeresis"@[0] == 'a' && "adiaeresis"@[1] == 'd');
    assert("ediaeresis"@[0] == 'e' && "ediaeresis"@[1] == 'd');
    assert("idiaeresis"@[0] == 'i' && "idiaeresis"@[1] == 'd');
    assert("odiaeresis"@[0] == 'o' && "odiaeresis"@[1] == 'd');
    assert("udiaeresis"@[0] == 'u' && "udiaeresis"@[1] == 'd');
    assert("ydiaeresis"@[0] == 'y' && "ydiaeresis"@[1] == 'd');
    assert("wdiaeresis"@[0] == 'w' && "wdiaeresis"@[1] == 'd');
    assert("Next"@[0] == 'N' && "Next"@[1] == 'e');
    assert("Prior"@[0] == 'P' && "Prior"@[1] == 'r');
    assert("Print"@[0] == 'P' && "Print"@[1] == 'r');
    assert("Return"@[0] == 'R' && "Return"@[1] == 'e');
    assert("space"@[0] == 's' && "space"@[1] == 'p');
    assert("bracketleft"@.len() != "bracketright"@.len());
    assert("Print"@[3] == 'n' && "Prior"@[3] == 'o');
}

/// Some keys are called otherwise than their keysyms, on screen and read out.
pub proof fn keys_have_everyday_names(screen_reader: bool)
    ensures
        names::pretty_keysym(screen_reader, "Next"@) == "Page Down"@,
        names::pretty_keysym(screen_reader, "Prior"@) == "Page Up"@,
        names::pretty_keysym(screen_reader, "Print"@) == "PrtSc"@,
        names::pretty_keysym(screen_reader, "Return"@) == "Enter"@,
        names::pretty_keysym(screen_reader, "space"@) == "Space"@,
{
    reveal_strlit("slash");
    reveal_strlit("comma");
    reveal_strlit("period");
    reveal_strlit("minus");
    reveal_strlit("equal");
    reveal_strlit("grave");
    reveal_strlit("bracketleft");
    reveal_strlit("bracketright");
    reveal_strlit("adiaeresis");
    reveal_strlit("ediaeresis");
    reveal_strlit("idiaeresis");
    reveal_strlit("odiaeresis");
    reveal_strlit("udiaeresis");
    reveal_strlit("ydiaeresis");
    reveal_strlit("wdiaeresis");
    reveal_strlit("/");
    reveal_strlit(",");
    reveal_strlit(".");
    reveal_strlit("-");
    reveal_strlit("=");
    reveal_strlit("`");
    reveal_strlit("[");
    reveal_strlit("]");
    reveal_strlit("Ä");
    reveal_strlit("Ë");
    reveal_strlit("Ï");
    reveal_strlit("Ö");
    reveal_strlit("Ü");
    reveal_strlit("Ÿ");
    reveal_strlit("Ẅ");
    reveal_strlit("Next");
    reveal_strlit("Prior");
    reveal_strlit("Print");
    reveal_strlit("Return");
    reveal_strlit("space");
    reveal_strlit("Page Down");
    reveal_strlit("Page Up");
    reveal_strlit("PrtSc");
    reveal_strlit("Enter");
    reveal_strlit("Space");
    assert("slash"@[0] == 's' && "slash"@[1] == 'l');
    assert("comma"@[0] == 'c' && "comma"@[1] == 'o');
    assert("period"@[0] == 'p' && "period"@[1] == 'e');
    assert("minus"@[0] == 'm' && "minus"@[1] == 'i');
    assert("equal"@[0] == 'e' && "equal"@[1] == 'q');
    assert("grave"@[0] == 'g' && "grave"@[1] == 'r');
    assert("bracketleft"@[0] == 'b' && "bracketleft"@[1] == 'r');
    assert("bracketright"@[0] == 'b' && "bracketright"@[1] == 'r');
    assert("adiaeresis"@[0] == 'a' && "adiaeresis"@[1] == 'd');
    assert("ediaeresis"@[0] == 'e' && "ediaeresis"@[1] == 'd');
    assert("idiaeresis"@[0] == 'i' && "idiaeresis"@[1] == 'd');
    assert("odiaeresis"@[0] == 'o' && "odiaeresis"@[1] == 'd');
    assert("udiaeresis"@[0] == 'u' && "udiaeresis"@[1] == 'd');
    assert("ydiaeresis"@[0] == 'y' && "ydiaeresis"@[1] == 'd');
    assert("wdiaeresis"@[0] == 'w' && "wdiaeresis"@[1] == 'd');
    assert("Next"@[0] == 'N' && "Next"@[1] == 'e');
    assert("Prior"@[0] == 'P' && "Prior"@[1] == 'r');
    assert("Print"@[0] == 'P' && "Print"@[1] == 'r');
    assert("Return"@[0] == 'R' && "Return"@[1] == 'e');
    assert("space"@[0] == 's' && "space"@[1] == 'p');
    assert("bracketleft"@.len() != "bracketright"@.len());
    assert("Print"@[3] == 'n' && "Prior"@[3] == 'o');
}

/// All other keysyms keep their names, except that a lone lower-case ASCII letter becomes upper
/// case.
pub proof fn other_keysyms_keep_their_names(screen_reader: bool, name: Seq<char>)
    requires
        !spells_a_symbol(name),
        !unusual(name),
    ensures
        name.len() != 1 ==> names::pretty_keysym(screen_reader, name) == name,
        name.len() == 1 && !('a' <= name[0] <= 'z') ==> names::pretty_keysym(screen_reader, name)
            == name,
        name.len() == 1 && 'a' <= name[0] <= 'z' ==> ({
            let shown = names::pretty_keysym(screen_reader, name);
            shown.len() == 1 && 'A' <= shown[0] <= 'Z' && name[0] as int - shown[0] as int == 'a' as int
                - 'A' as int
        }),
{
    let shown = names::pretty_keysym(screen_reader, name);
    if name.len() == 1 {
        assert(shown =~= seq![names::upper(name[0])]);
        if !('a' <= name[0] <= 'z') {
            assert(shown =~= name);
        }
    }
}

/// The text of a modifier, if it is held.
pub open spec fn part(held: bool, text: Seq<char>) -> Seq<char> {
    if held {
        text
    } else {
        Seq::empty()
    }
}

/// A key's name has the compositor's modifier first, then Super, Ctrl, Shift, Alt, Mod5 and Mod3
/// as far as they are held and not that one, and the trigger last.
pub proof fn modifiers_precede_the_trigger(screen_reader: bool, mod_key: ModKey, key: KeyView)
    ensures
        ({
            let mods = key.modifiers;
            let own = mods.compositor;
            names::key_label(screen_reader, mod_key, key) == part(
                own && mod_key is Super,
                "Super + "@,
            ) + part(own && mod_key is Alt, "Alt + "@) + part(
                own && mod_key is Shift,
                "Shift + "@,
            ) + part(own && mod_key is Ctrl, "Ctrl + "@) + part(
                own && mod_key is IsoLevel3Shift,
                "Mod5 + "@,
            ) + part(own && mod_key is IsoLevel5Shift, "Mod3 + "@) + part(
                mods.super_ && !(own && mod_key is Super),
                "Super + "@,
            ) + part(mods.ctrl && !(own && mod_key is Ctrl), "Ctrl + "@) + part(
                mods.shift && !(own && mod_key is Shift),
                "Shift + "@,
            ) + part(mods.alt && !(own && mod_key is Alt), "Alt + "@) + part(
                mods.iso_level3_shift && !(own && mod_key is IsoLevel3Shift),
                "Mod5 + "@,
            ) + part(
                mods.iso_level5_shift && !(own && mod_key is IsoLevel5Shift),
                "Mod3 + "@,
            ) + names::trigger_label(screen_reader, key.trigger)
        }),
{
    let mods = key.modifiers;
    let own = mods.compositor;
    let none = Seq::<char>::empty();
    let first = part(own && mod_key is Super, "Super + "@) + part(
        own && mod_key is Alt,
        "Alt + "@,
    ) + part(own && mod_key is Shift, "Shift + "@) + part(own && mod_key is Ctrl, "Ctrl + "@)
        + part(own && mod_key is IsoLevel3Shift, "Mod5 + "@) + part(
        own && mod_key is IsoLevel5Shift,
        "Mod3 + "@,
    );
    let named = if own {
        Some(mod_key)
    } else {
        None
    };
    assert(first =~= names::modifier_part(own, mod_key, None));
    assert(part(mods.super_ && !(own && mod_key is Super), "Super + "@)
        =~= names::modifier_part(mods.super_, ModKey::Super, named));
    assert(part(mods.ctrl && !(own && mod_key is Ctrl), "Ctrl + "@) =~= names::modifier_part(
        mods.ctrl,
        ModKey::Ctrl,
        named,
    ));
    assert(part(mods.shift && !(own && mod_key is Shift), "Shift + "@) =~= names::modifier_part(
        mods.shift,
        ModKey::Shift,
        named,
    ));
    assert(part(mods.alt && !(own && mod_key is Alt), "Alt + "@) =~= names::modifier_part(
        mods.alt,
        ModKey::Alt,
        named,
    ));
    assert(part(mods.iso_level3_shift && !(own && mod_key is IsoLevel3Shift), "Mod5 + "@)
        =~= names::modifier_part(mods.iso_level3_shift, ModKey::IsoLevel3Shift, named));
    assert(part(mods.iso_level5_shift && !(own && mod_key is IsoLevel5Shift), "Mod3 + "@)
        =~= names::modifier_part(mods.iso_level5_shift, ModKey::IsoLevel5Shift, named));
}

} // verus!
