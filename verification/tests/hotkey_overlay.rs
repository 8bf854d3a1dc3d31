//! What the hotkey overlay lists, how it is read out, and when it is drawn anew.

use niri_core::hotkey_overlay::binds::{Action, Bind, Config, Key, ModKey, Modifiers, Trigger};
use niri_core::hotkey_overlay::names::{action_name, key_name, prettify_keysym_name};
use niri_core::hotkey_overlay::overlay::{Drawing, HotkeyOverlay, OutputSize, RenderStep};
use niri_core::hotkey_overlay::rows::{key_cell, overlay_rows, Reader, Row};
use niri_core::hotkey_overlay::sections::{collect_sections, format_bind};
use niri_core::measure::Measure;

fn modifiers(names: &str) -> Modifiers {
    let has = |name: &str| names.split('+').any(|part| part == name);
    Modifiers {
        compositor: has("Mod"),
        super_: has("Super"),
        ctrl: has("Ctrl"),
        shift: has("Shift"),
        alt: has("Alt"),
        iso_level3_shift: has("ISO_Level3_Shift"),
        iso_level5_shift: has("ISO_Level5_Shift"),
    }
}

/// A bind of the key `name` with modifiers, both as a configuration spells them.
fn bind(spelled: &str, action: Action) -> Bind {
    let name = spelled.rsplit('+').next().unwrap();
    Bind {
        key: Key { trigger: Trigger::Keysym(name.to_owned()), modifiers: modifiers(spelled) },
        action,
        hotkey_overlay_title: None,
    }
}

fn titled(spelled: &str, title: &str, action: Action) -> Bind {
    let mut bind = bind(spelled, action);
    bind.hotkey_overlay_title = Some(Some(title.to_owned()));
    bind
}

fn hidden(spelled: &str, action: Action) -> Bind {
    let mut bind = bind(spelled, action);
    bind.hotkey_overlay_title = Some(None);
    bind
}

fn screenshot() -> Action {
    Action::Screenshot(true, None)
}

fn check(binds: Vec<Bind>, action: Action) -> String {
    if let Some((key, title)) = format_bind(&binds, &action) {
        let key = key.map(|key| key_name(false, ModKey::Super, &key));
        let key = key.as_deref().unwrap_or("(not bound)");
        format!(" {key} : {title}")
    } else {
        String::from("None")
    }
}

#[test]
fn test_format_bind() {
    // Not bound.
    assert_eq!(check(vec![], screenshot()), " (not bound) : Take a Screenshot");

    // Bound with a default title.
    assert_eq!(
        check(vec![bind("Mod+P", screenshot())], screenshot()),
        " Super + P : Take a Screenshot"
    );

    // Custom title.
    assert_eq!(
        check(vec![titled("Mod+P", "Hello", screenshot())], screenshot()),
        " Super + P : Hello"
    );

    // Prefer first bind.
    assert_eq!(
        check(vec![bind("Mod+P", screenshot()), bind("Print", screenshot())], screenshot()),
        " Super + P : Take a Screenshot"
    );

    // Prefer bind with custom title.
    assert_eq!(
        check(
            vec![bind("Mod+P", screenshot()), titled("Print", "My Cool Bind", screenshot())],
            screenshot(),
        ),
        " PrtSc : My Cool Bind"
    );

    // Prefer first bind with custom title.
    assert_eq!(
        check(
            vec![
                titled("Mod+P", "First", screenshot()),
                titled("Print", "My Cool Bind", screenshot()),
            ],
            screenshot(),
        ),
        " Super + P : First"
    );

    // Any bind with null title hides it.
    assert_eq!(
        check(vec![bind("Mod+P", screenshot()), hidden("Print", screenshot())], screenshot()),
        "None"
    );

    // Custom title takes preference over null.
    assert_eq!(
        check(
            vec![titled("Mod+P", "Hello", screenshot()), hidden("Print", screenshot())],
            screenshot(),
        ),
        " Super + P : Hello"
    );
}

/// The text of a piece of markup, which here holds tags only.
fn without_tags(markup: &str) -> String {
    let mut text = String::new();
    let mut in_tag = false;
    for c in markup.chars() {
        match c {
            '<' => in_tag = true,
            '>' => in_tag = false,
            _ if !in_tag => text.push(c),
            _ => {}
        }
    }
    text
}

fn sections_config() -> Config {
    Config {
        binds: vec![
            bind("Mod+Shift+slash", Action::ShowHotkeyOverlay),
            bind("Mod+Shift+E", Action::Quit(false)),
            bind("Mod+P", screenshot()),
            bind("Mod+Left", Action::FocusColumnLeft),
            bind("Mod+Q", Action::CloseWindow),
            bind("Mod+T", Action::Spawn(vec!["alacritty".to_owned()])),
            titled("Mod+X", "Do Something", Action::SpawnSh("something".to_owned())),
            titled("Mod+C", "Center It", Action::Other(0)),
        ],
        hide_not_bound: true,
    }
}

#[test]
fn test_sections() {
    let config = sections_config();
    let overlay: HotkeyOverlay<()> = HotkeyOverlay::new(ModKey::Super);
    let plain = overlay
        .a11y_titles(&config)
        .iter()
        .map(|markup| Some(without_tags(markup)))
        .collect();
    assert_eq!(
        overlay.a11y_text(&config, &plain),
        "Important Hotkeys\n\
        Compositor\n\
        Super + Shift + slash Show Important Hotkeys\n\
        Super + Shift + E Exit niri\n\
        Super + P Take a Screenshot\n\
        Navigation\n\
        Super + Left Focus Column to the Left\n\
        Windows\n\
        Super + Q Close Focused Window\n\
        Apps\n\
        Super + X Do Something\n\
        Super + T Spawn alacritty\n\
        Other\n\
        Super + C Center It\n"
    );
}

#[test]
fn markup_that_does_not_parse_is_read_as_it_is() {
    let config = Config {
        binds: vec![titled("Mod+X", "a < b", Action::Other(0))],
        hide_not_bound: true,
    };
    let overlay: HotkeyOverlay<()> = HotkeyOverlay::new(ModKey::Alt);
    let said = "Important Hotkeys\nOther\nAlt + X a < b\n";
    assert_eq!(overlay.a11y_text(&config, &vec![None]), said);
    assert_eq!(overlay.a11y_text(&config, &vec![]), said);
}

#[test]
fn unbound_actions_are_read_as_not_bound() {
    let config = Config { binds: vec![], hide_not_bound: false };
    let overlay: HotkeyOverlay<()> = HotkeyOverlay::new(ModKey::Super);
    assert_eq!(
        overlay.a11y_text(&config, &vec![]),
        "Important Hotkeys\n\
        Compositor\n\
        not bound Show Important Hotkeys\n\
        not bound Exit niri\n\
        not bound Open the Overview\n\
        Navigation\n\
        not bound Focus Column to the Left\n\
        not bound Focus Column to the Right\n\
        not bound Switch Workspace Down\n\
        not bound Switch Workspace Up\n\
        Windows\n\
        not bound Close Focused Window\n\
        not bound Move Column Left\n\
        not bound Move Column Right\n\
        not bound Move Column to Workspace Down\n\
        not bound Move Column to Workspace Up\n\
        not bound Switch Preset Column Widths\n\
        not bound Maximize Column\n\
        not bound Consume or Expel Window Left\n\
        not bound Consume or Expel Window Right\n\
        not bound Move Window Between Floating and Tiling\n\
        not bound Switch Focus Between Floating and Tiling\n"
    );
}

#[test]
fn hidden_section_is_dropped_with_its_title() {
    let config = Config {
        binds: vec![hidden("Mod+Left", Action::FocusColumnLeft), bind("Mod+Q", Action::CloseWindow)],
        hide_not_bound: true,
    };
    // The action keeps its section, but the section has nothing to show.
    assert_eq!(collect_sections(&config).len(), 2);
    let overlay: HotkeyOverlay<()> = HotkeyOverlay::new(ModKey::Super);
    let rows = overlay.rows(&config);
    assert_eq!(rows.len(), 1);
    assert_eq!(rows[0].title, "Windows");
    assert_eq!(rows[0].rows.len(), 1);
}

fn section_titles(config: &Config) -> Vec<&'static str> {
    collect_sections(config).iter().map(|section| section.title).collect()
}

fn section_actions(config: &Config, title: &str) -> Vec<String> {
    for section in collect_sections(config) {
        if section.title == title {
            return section.actions.iter().map(|action| format!("{action:?}")).collect();
        }
    }
    vec![]
}

#[test]
fn quit_without_confirmation_is_preferred() {
    let quits = |binds| section_actions(&Config { binds, hide_not_bound: true }, "Compositor");
    assert_eq!(quits(vec![bind("Mod+E", Action::Quit(true))]), vec!["Quit(true)"]);
    assert_eq!(
        quits(vec![bind("Mod+E", Action::Quit(true)), bind("Mod+F", Action::Quit(false))]),
        vec!["Quit(false)"]
    );
}

#[test]
fn moving_a_column_is_preferred_to_moving_a_window() {
    let moves = |binds| section_actions(&Config { binds, hide_not_bound: true }, "Windows");
    assert_eq!(
        moves(vec![
            bind("Mod+J", Action::MoveWindowToWorkspaceDown(true)),
            bind("Mod+K", Action::MoveColumnToWorkspaceDown(false)),
        ]),
        vec!["MoveColumnToWorkspaceDown(false)"]
    );
    assert_eq!(
        moves(vec![bind("Mod+J", Action::MoveWindowToWorkspaceUp(true))]),
        vec!["MoveWindowToWorkspaceUp(true)"]
    );
    // Only focusing the moved window is listed as such.
    assert!(moves(vec![bind("Mod+J", Action::MoveWindowToWorkspaceUp(false))]).is_empty());
}

#[test]
fn apps_are_listed_once_and_only_with_mod_or_super() {
    let spawn = || Action::Spawn(vec!["foot".to_owned()]);
    let mut wheel = bind("Mod+X", Action::Spawn(vec!["wheel".to_owned()]));
    wheel.key.trigger = Trigger::WheelScrollDown;
    let config = Config {
        binds: vec![
            bind("Ctrl+V", Action::Spawn(vec!["volume".to_owned()])),
            wheel,
            bind("Mod+T", spawn()),
            bind("Super+U", spawn()),
        ],
        hide_not_bound: true,
    };
    assert_eq!(section_titles(&config), vec!["Apps"]);
    assert_eq!(section_actions(&config, "Apps"), vec!["Spawn([\"foot\"])"]);
}

#[test]
fn titled_binds_of_listed_actions_are_not_repeated() {
    let config = Config {
        binds: vec![
            titled("Mod+Q", "Shut It", Action::CloseWindow),
            titled("Mod+1", "One", Action::Other(1)),
            titled("Mod+2", "One Again", Action::Other(1)),
            titled("Mod+3", "Three", Action::Other(3)),
        ],
        hide_not_bound: true,
    };
    assert_eq!(section_titles(&config), vec!["Windows", "Other"]);
    assert_eq!(section_actions(&config, "Other"), vec!["Other(1)", "Other(3)"]);
}

#[test]
fn untitled_actions_get_a_placeholder() {
    assert_eq!(action_name(&Action::Other(7)), "FIXME: Unknown");
    assert_eq!(
        action_name(&Action::Spawn(vec!["foot".to_owned(), "-e".to_owned()])),
        "Spawn <span face='monospace' bgcolor='#000000'>foot</span>"
    );
    assert_eq!(
        action_name(&Action::Spawn(vec![])),
        "Spawn <span face='monospace' bgcolor='#000000'></span>"
    );
    assert_eq!(
        action_name(&Action::SpawnSh("  grim -g \"$(slurp)\"".to_owned())),
        "Spawn <span face='monospace' bgcolor='#000000'>grim</span>"
    );
    assert_eq!(
        action_name(&Action::SpawnSh(" \t\n".to_owned())),
        "Spawn <span face='monospace' bgcolor='#000000'></span>"
    );
}

#[test]
fn keysyms_are_prettified() {
    assert_eq!(prettify_keysym_name(false, "slash"), "/");
    assert_eq!(prettify_keysym_name(true, "slash"), "slash");
    assert_eq!(prettify_keysym_name(false, "adiaeresis"), "Ä");
    assert_eq!(prettify_keysym_name(false, "wdiaeresis"), "Ẅ");
    assert_eq!(prettify_keysym_name(true, "Next"), "Page Down");
    assert_eq!(prettify_keysym_name(false, "Prior"), "Page Up");
    assert_eq!(prettify_keysym_name(false, "Return"), "Enter");
    assert_eq!(prettify_keysym_name(false, "space"), "Space");
    assert_eq!(prettify_keysym_name(false, "p"), "P");
    assert_eq!(prettify_keysym_name(true, "p"), "P");
    assert_eq!(prettify_keysym_name(false, "ä"), "ä");
    assert_eq!(prettify_keysym_name(false, "F12"), "F12");
    assert_eq!(prettify_keysym_name(false, ""), "");
}

#[test]
fn modifiers_come_in_a_fixed_order() {
    let mut key = Key {
        trigger: Trigger::WheelScrollUp,
        modifiers: modifiers("Mod+Super+Ctrl+Shift+Alt+ISO_Level3_Shift+ISO_Level5_Shift"),
    };
    assert_eq!(
        key_name(false, ModKey::Alt, &key),
        "Alt + Super + Ctrl + Shift + Mod5 + Mod3 + Wheel Scroll Up"
    );
    assert_eq!(
        key_name(false, ModKey::IsoLevel5Shift, &key),
        "Mod3 + Super + Ctrl + Shift + Alt + Mod5 + Wheel Scroll Up"
    );
    // Without the compositor's modifier, all the others are named.
    key.modifiers.compositor = false;
    assert_eq!(
        key_name(false, ModKey::Super, &key),
        "Super + Ctrl + Shift + Alt + Mod5 + Mod3 + Wheel Scroll Up"
    );
}

#[test]
fn key_cells_are_padded() {
    let unbound = Row { key: None, title: "x".to_owned() };
    assert_eq!(key_cell(&unbound), " (not bound) ");
    let bound = Row { key: Some("Super + P".to_owned()), title: "x".to_owned() };
    assert_eq!(key_cell(&bound), " Super + P ");
}

#[test]
fn rows_on_screen_show_symbols() {
    let config = sections_config();
    let rows = overlay_rows(&config, Reader { screen_reader: false, mod_key: ModKey::Super });
    assert_eq!(rows[0].rows[0].key.as_deref(), Some("Super + Shift + /"));
    assert_eq!(
        rows[3].rows[1].title,
        "Spawn <span face='monospace' bgcolor='#000000'>alacritty</span>"
    );
}

fn size(w: f64, h: f64) -> OutputSize {
    OutputSize { w: Measure::from_bits(w.to_bits()), h: Measure::from_bits(h.to_bits()) }
}

fn scale(s: f64) -> Measure {
    Measure::from_bits(s.to_bits())
}

#[test]
fn showing_and_hiding_report_changes() {
    let mut overlay: HotkeyOverlay<u8> = HotkeyOverlay::new(ModKey::Super);
    assert!(!overlay.is_open());
    assert!(!overlay.hide_overlay());
    assert!(overlay.show());
    assert!(overlay.is_open());
    assert!(!overlay.show());
    assert!(overlay.hide_overlay());
    assert!(!overlay.is_open());
}

#[test]
fn drawing_is_reused_until_size_or_scale_changes() {
    let mut overlay: HotkeyOverlay<&str> = HotkeyOverlay::new(ModKey::Super);
    let full_hd = size(1920., 1080.);
    assert_eq!(overlay.render(1, full_hd, scale(1.), &vec![1]), RenderStep::Closed);
    overlay.show();
    assert_eq!(overlay.render(1, full_hd, scale(1.), &vec![1]), RenderStep::Draw);
    overlay.store(1, full_hd, Some(Drawing { texture: "first", scale: scale(1.) }));
    assert_eq!(overlay.render(1, full_hd, scale(1.), &vec![1]), RenderStep::Stored);
    assert_eq!(overlay.buffer(1).unwrap().texture, "first");

    // Another scale.
    assert_eq!(overlay.render(1, full_hd, scale(1.5), &vec![1]), RenderStep::Draw);
    assert!(overlay.buffer(1).is_none());
    overlay.store(1, full_hd, Some(Drawing { texture: "second", scale: scale(1.5) }));

    // Another size.
    assert_eq!(overlay.render(1, size(1920., 1200.), scale(1.5), &vec![1]), RenderStep::Draw);
    overlay.store(1, size(1920., 1200.), Some(Drawing { texture: "third", scale: scale(1.5) }));

    // Closed and opened again, it is still there.
    overlay.hide_overlay();
    assert_eq!(
        overlay.render(1, size(1920., 1200.), scale(1.5), &vec![1]),
        RenderStep::Closed
    );
    overlay.show();
    assert_eq!(
        overlay.render(1, size(1920., 1200.), scale(1.5), &vec![1]),
        RenderStep::Stored
    );
}

#[test]
fn failed_drawing_is_not_repeated_at_the_same_size() {
    let mut overlay: HotkeyOverlay<u8> = HotkeyOverlay::new(ModKey::Super);
    overlay.show();
    let full_hd = size(1920., 1080.);
    assert_eq!(overlay.render(1, full_hd, scale(1.), &vec![1]), RenderStep::Draw);
    overlay.store(1, full_hd, None);
    // There is no drawing whose scale could differ.
    assert_eq!(overlay.render(1, full_hd, scale(2.), &vec![1]), RenderStep::Stored);
    assert!(overlay.buffer(1).is_none());
    assert_eq!(overlay.render(1, size(1., 1.), scale(2.), &vec![1]), RenderStep::Draw);
}

#[test]
fn outputs_are_kept_apart_and_dead_ones_forgotten() {
    let mut overlay: HotkeyOverlay<u8> = HotkeyOverlay::new(ModKey::Super);
    overlay.show();
    let full_hd = size(1920., 1080.);
    overlay.store(1, full_hd, Some(Drawing { texture: 10, scale: scale(1.) }));
    overlay.store(2, full_hd, Some(Drawing { texture: 20, scale: scale(1.) }));
    overlay.store(3, full_hd, Some(Drawing { texture: 30, scale: scale(1.) }));
    assert_eq!(overlay.render(2, full_hd, scale(1.), &vec![2, 3, 2]), RenderStep::Stored);
    assert!(overlay.buffer(1).is_none());
    assert_eq!(overlay.buffer(2).unwrap().texture, 20);
    assert_eq!(overlay.buffer(3).unwrap().texture, 30);
    assert_eq!(overlay.render(1, full_hd, scale(1.), &vec![1, 2, 3]), RenderStep::Draw);
}

#[test]
fn changed_hotkeys_are_drawn_anew() {
    let mut overlay: HotkeyOverlay<u8> = HotkeyOverlay::new(ModKey::Super);
    overlay.show();
    let full_hd = size(1920., 1080.);
    overlay.store(1, full_hd, Some(Drawing { texture: 10, scale: scale(1.) }));
    overlay.on_hotkey_config_updated(ModKey::Alt);
    assert!(overlay.is_open());
    assert_eq!(overlay.render(1, full_hd, scale(1.), &vec![1]), RenderStep::Draw);
    let config = Config { binds: vec![bind("Mod+Q", Action::CloseWindow)], hide_not_bound: true };
    assert_eq!(overlay.rows(&config)[0].rows[0].key.as_deref(), Some("Alt + Q"));
}
