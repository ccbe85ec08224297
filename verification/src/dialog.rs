//! The screen saver's settings dialog: the versions it offers, which one it
//! shows as chosen, what its controls add up to when OK is pressed, how it
//! answers its messages, and where its controls sit.
use vstd::prelude::*;

use crate::settings::SaverSettings;
use crate::text::str_equal;

verus! {

/// Control identifier of the version list.
pub const IDC_VERSION_COMBO: usize = 1001;

/// Control identifier of the mirror check box.
pub const IDC_MIRROR: usize = 1002;

/// Control identifier of the intro check box.
pub const IDC_SKIP_INTRO: usize = 1003;

/// Control identifier of the OK button.
pub const IDC_OK: usize = 1004;

/// Control identifier of the Cancel button.
pub const IDC_CANCEL: usize = 1005;

/// Number of versions the dialog offers.
pub const SAVER_VERSION_COUNT: usize = 14;

/// The versions the dialog offers, in the order of its list.
pub open spec fn spec_saver_versions() -> Seq<Seq<char>> {
    seq![
        "classic"@,
        "megacity"@,
        "neomatrixology"@,
        "operator"@,
        "nightmare"@,
        "paradise"@,
        "resurrections"@,
        "trinity"@,
        "morpheus"@,
        "bugs"@,
        "palimpsest"@,
        "twilight"@,
        "holoplay"@,
        "3d"@,
    ]
}

/// The version at place `index` of the dialog's list.
pub fn saver_version(index: usize) -> (version: &'static str)
    requires
        index < SAVER_VERSION_COUNT,
    ensures
        version@ == spec_saver_versions()[index as int],
{
    proof {
        reveal_strlit("classic");
        reveal_strlit("megacity");
        reveal_strlit("neomatrixology");
        reveal_strlit("operator");
        reveal_strlit("nightmare");
        reveal_strlit("paradise");
        reveal_strlit("resurrections");
        reveal_strlit("trinity");
        reveal_strlit("morpheus");
        reveal_strlit("bugs");
        reveal_strlit("palimpsest");
        reveal_strlit("twilight");
        reveal_strlit("holoplay");
        reveal_strlit("3d");
    }
    match index {
        0 => "classic",
        1 => "megacity",
        2 => "neomatrixology",
        3 => "operator",
        4 => "nightmare",
        5 => "paradise",
        6 => "resurrections",
        7 => "trinity",
        8 => "morpheus",
        9 => "bugs",
        10 => "palimpsest",
        11 => "twilight",
        12 => "holoplay",
        _ => "3d",
    }
}

/// The versions the dialog offers, in the order of its list.
pub fn saver_versions() -> (versions: Vec<&'static str>)
    ensures
        versions@.len() == SAVER_VERSION_COUNT,
        forall|i: int| 0 <= i < SAVER_VERSION_COUNT ==> #[trigger] versions@[i]@ == spec_saver_versions()[i],
{
    let mut versions: Vec<&'static str> = Vec::new();
    for i in 0..SAVER_VERSION_COUNT
        invariant
            versions@.len() == i,
            forall|k: int| 0 <= k < i ==> #[trigger] versions@[k]@ == spec_saver_versions()[k],
    {
        versions.push(saver_version(i));
    }
    versions
}

/// The first place of `version` in the list, if it is there.
pub open spec fn spec_version_position(version: Seq<char>) -> Option<int> {
    if exists|i: int| 0 <= i < SAVER_VERSION_COUNT && spec_saver_versions()[i] == version {
        Some(
            choose|i: int|
                0 <= i < SAVER_VERSION_COUNT && spec_saver_versions()[i] == version && forall|
                    j: int,
                |
                    0 <= j < i ==> spec_saver_versions()[j] != version,
        )
    } else {
        None
    }
}

/// The place of `version` in the list, which the dialog shows as chosen
/// when it opens; `None` for a version the list lacks.
pub fn version_position(version: &str) -> (position: Option<usize>)
    ensures
        match position {
            Some(i) => i < SAVER_VERSION_COUNT && spec_saver_versions()[i as int] == version@
                && forall|j: int| 0 <= j < i ==> spec_saver_versions()[j] != version@,
            None => forall|i: int|
                0 <= i < SAVER_VERSION_COUNT ==> spec_saver_versions()[i] != version@,
        },
        match position {
            Some(i) => spec_version_position(version@) == Some(i as int),
            None => spec_version_position(version@) is None,
        },
{
    for i in 0..SAVER_VERSION_COUNT
        invariant
            forall|j: int| 0 <= j < i ==> spec_saver_versions()[j] != version@,
    {
        if str_equal(saver_version(i), version) {
            proof {
                let v = version@;
                assert(exists|k: int| 0 <= k < SAVER_VERSION_COUNT && spec_saver_versions()[k] == v);
                let c = choose|k: int|
                    0 <= k < SAVER_VERSION_COUNT && spec_saver_versions()[k] == v && forall|j: int|
                        0 <= j < k ==> spec_saver_versions()[j] != v;
                assert(0 <= i < SAVER_VERSION_COUNT && spec_saver_versions()[i as int] == v
                    && forall|j: int| 0 <= j < i ==> spec_saver_versions()[j] != v);
                assert(c == i as int);
            }
            return Some(i);
        }
    }
    None
}

/// The settings that OK saves: those loaded when the dialog opened,
/// with the version the list shows (a selection outside the list, such as
/// none at all, keeps the loaded version) and the state of each check box
/// (any nonzero state is checked). A control that could not be found keeps
/// the loaded value.
pub open spec fn spec_dialog_settings(
    loaded: SaverSettings,
    selection: Option<isize>,
    mirror_check: Option<isize>,
    skip_check: Option<isize>,
) -> (Seq<char>, bool, bool) {
    (
        match selection {
            Some(sel) if 0 <= sel < SAVER_VERSION_COUNT => spec_saver_versions()[sel as int],
            _ => loaded.version@,
        },
        match mirror_check {
            Some(state) => state != 0,
            None => loaded.mirror_enabled,
        },
        match skip_check {
            Some(state) => state != 0,
            None => loaded.skip_intro,
        },
    )
}

/// The settings that OK saves, from the loaded settings and what the
/// dialog's controls report.
pub fn dialog_settings(
    loaded: &SaverSettings,
    selection: Option<isize>,
    mirror_check: Option<isize>,
    skip_check: Option<isize>,
) -> (settings: SaverSettings)
    ensures
        (settings.version@, settings.mirror_enabled, settings.skip_intro) == spec_dialog_settings(
            *loaded,
            selection,
            mirror_check,
            skip_check,
        ),
        settings.version@ == (match selection {
            Some(sel) => if 0 <= sel < SAVER_VERSION_COUNT {
                spec_saver_versions()[sel as int]
            } else {
                loaded.version@
            },
            None => loaded.version@,
        }),
        settings.mirror_enabled == (match mirror_check {
            Some(state) => state != 0,
            None => loaded.mirror_enabled,
        }),
        settings.skip_intro == (match skip_check {
            Some(state) => state != 0,
            None => loaded.skip_intro,
        }),
{
    let version: &str = match selection {
        Some(sel) if 0 <= sel && sel < SAVER_VERSION_COUNT as isize => saver_version(
            sel as usize,
        ),
        _ => loaded.version.as_str(),
    };
    let mirror_enabled = match mirror_check {
        Some(state) => state != 0,
        None => loaded.mirror_enabled,
    };
    let skip_intro = match skip_check {
        Some(state) => state != 0,
        None => loaded.skip_intro,
    };
    SaverSettings::new(version, mirror_enabled, skip_intro)
}

/// The check box state that shows a switch: 1 for checked, 0 for not.
pub open spec fn check_state(on: bool) -> isize {
    if on {
        1
    } else {
        0
    }
}

/// The selection the list shows for a version: its place, or -1 (no
/// selection) for a version the list lacks.
pub open spec fn shown_selection(version: Seq<char>) -> isize {
    match spec_version_position(version) {
        Some(i) => i as isize,
        None => -1isize,
    }
}

/// Opening the dialog and pressing OK without touching a control saves
/// exactly the settings that were loaded.
pub proof fn lemma_untouched_dialog_keeps_settings(loaded: SaverSettings)
    ensures
        spec_dialog_settings(
            loaded,
            Some(shown_selection(loaded.version@)),
            Some(check_state(loaded.mirror_enabled)),
            Some(check_state(loaded.skip_intro)),
        ) == (loaded.version@, loaded.mirror_enabled, loaded.skip_intro),
{
    let v = loaded.version@;
    if exists|i: int| 0 <= i < SAVER_VERSION_COUNT && spec_saver_versions()[i] == v {
        let w = choose|i: int| 0 <= i < SAVER_VERSION_COUNT && spec_saver_versions()[i] == v;
        lemma_first_position(v, w);
    }
}

/// OK saves the version at the selected place of the list, whatever was
/// loaded, for every place of the list; a selection off the list (such as
/// none at all, -1) keeps the loaded version; each check box saves its own
/// state, checked when nonzero.
pub proof fn lemma_dialog_saves_selection(
    loaded: SaverSettings,
    other: SaverSettings,
    selection: isize,
    mirror_check: Option<isize>,
    skip_check: Option<isize>,
)
    ensures
        0 <= selection < SAVER_VERSION_COUNT ==> spec_dialog_settings(
            loaded,
            Some(selection),
            mirror_check,
            skip_check,
        ).0 == spec_saver_versions()[selection as int],
        0 <= selection < SAVER_VERSION_COUNT ==> spec_dialog_settings(
            loaded,
            Some(selection),
            mirror_check,
            skip_check,
        ).0 == spec_dialog_settings(other, Some(selection), None, None).0,
        !(0 <= selection < SAVER_VERSION_COUNT) ==> spec_dialog_settings(
            loaded,
            Some(selection),
            mirror_check,
            skip_check,
        ).0 == loaded.version@,
        spec_dialog_settings(loaded, None, mirror_check, skip_check).0 == loaded.version@,
        spec_dialog_settings(loaded, Some(selection), Some(1), Some(0)).1,
        !spec_dialog_settings(loaded, Some(selection), Some(0), Some(1)).1,
        spec_dialog_settings(loaded, Some(selection), Some(0), Some(1)).2,
        !spec_dialog_settings(loaded, Some(selection), Some(1), Some(0)).2,
{
}

/// A version that the list holds has a first place in it.
proof fn lemma_first_position(version: Seq<char>, at: int)
    requires
        0 <= at < SAVER_VERSION_COUNT,
        spec_saver_versions()[at] == version,
    ensures
        exists|i: int|
            0 <= i < SAVER_VERSION_COUNT && spec_saver_versions()[i] == version && forall|j: int|
                0 <= j < i ==> spec_saver_versions()[j] != version,
    decreases at,
{
    if exists|j: int| 0 <= j < at && spec_saver_versions()[j] == version {
        let j = choose|j: int| 0 <= j < at && spec_saver_versions()[j] == version;
        lemma_first_position(version, j);
    } else {
        assert(forall|j: int| 0 <= j < at ==> spec_saver_versions()[j] != version);
    }
}

/// The messages the dialog tells apart; a command carries its `wparam`.
#[derive(Clone, Copy, PartialEq, Eq, Debug)]
pub enum DialogMessage {
    InitDialog,
    Command(usize),
    Close,
    Destroy,
    Other,
}

/// What the dialog does about a message.
#[derive(Clone, Copy, PartialEq, Eq, Debug)]
pub enum DialogReaction {
    /// Report the dialog as set up (result 1).
    Initialized,
    /// Save the controls' settings, record the dialog as confirmed and
    /// destroy it.
    SaveAndClose,
    /// Record the dialog as cancelled and destroy it.
    CancelAndClose,
    /// End the dialog's message loop.
    Quit,
    /// Handled, nothing to do (result 0).
    Ignore,
    /// Leave it to the default window procedure.
    Default,
}

/// The dialog's answer to a message: OK saves, Cancel and the close box
/// cancel, other control notifications are ignored.
pub open spec fn spec_dialog_reaction(message: DialogMessage) -> DialogReaction {
    match message {
        DialogMessage::InitDialog => DialogReaction::Initialized,
        DialogMessage::Command(wparam) => {
            let control = wparam % 0x10000;
            if control == IDC_OK {
                DialogReaction::SaveAndClose
            } else if control == IDC_CANCEL {
                DialogReaction::CancelAndClose
            } else {
                DialogReaction::Ignore
            }
        },
        DialogMessage::Close => DialogReaction::CancelAndClose,
        DialogMessage::Destroy => DialogReaction::Quit,
        DialogMessage::Other => DialogReaction::Default,
    }
}

/// The dialog's answer to a message.
pub fn dialog_reaction(message: DialogMessage) -> (reaction: DialogReaction)
    ensures
        reaction == spec_dialog_reaction(message),
{
    match message {
        DialogMessage::InitDialog => DialogReaction::Initialized,
        DialogMessage::Command(wparam) => {
            let control = wparam % 0x10000;
            if control == IDC_OK {
                DialogReaction::SaveAndClose
            } else if control == IDC_CANCEL {
                DialogReaction::CancelAndClose
            } else {
                DialogReaction::Ignore
            }
        },
        DialogMessage::Close => DialogReaction::CancelAndClose,
        DialogMessage::Destroy => DialogReaction::Quit,
        DialogMessage::Other => DialogReaction::Default,
    }
}

/// A control's place and size, in pixels at 96 dots per inch.
#[derive(Clone, Copy, PartialEq, Eq, Debug)]
pub struct ControlRect {
    pub x: i32,
    pub y: i32,
    pub width: i32,
    pub height: i32,
}

/// Where the dialog's controls sit.
#[derive(Clone, Copy, PartialEq, Eq, Debug)]
pub struct DialogLayout {
    pub width: i32,
    pub height: i32,
    pub style_label: ControlRect,
    pub version_list: ControlRect,
    pub options_label: ControlRect,
    pub mirror_box: ControlRect,
    pub skip_intro_box: ControlRect,
    pub cancel_button: ControlRect,
    pub ok_button: ControlRect,
}

/// The dialog's layout: a 360 by 320 window with a 24 pixel margin; the
/// controls fill the width between the margins, one under the other, and
/// the two buttons sit at the right of the bottom row, OK first, 10 pixels
/// apart.
pub open spec fn spec_dialog_layout() -> DialogLayout {
    let margin = 24i32;
    let content = 360 - 2 * margin;
    let button_width = 90i32;
    let button_height = 30i32;
    let cancel_x = margin + content - button_width;
    DialogLayout {
        width: 360,
        height: 320,
        style_label: ControlRect { x: margin, y: 18, width: content as i32, height: 20 },
        version_list: ControlRect { x: margin, y: 42, width: content as i32, height: 200 },
        options_label: ControlRect { x: margin, y: 78, width: content as i32, height: 20 },
        mirror_box: ControlRect { x: margin, y: 104, width: content as i32, height: 24 },
        skip_intro_box: ControlRect { x: margin, y: 134, width: content as i32, height: 24 },
        cancel_button: ControlRect {
            x: cancel_x as i32,
            y: 178,
            width: button_width,
            height: button_height,
        },
        ok_button: ControlRect {
            x: (cancel_x - button_width - 10) as i32,
            y: 178,
            width: button_width,
            height: button_height,
        },
    }
}

/// The dialog's layout.
pub fn dialog_layout() -> (layout: DialogLayout)
    ensures
        layout == spec_dialog_layout(),
{
    let width: i32 = 360;
    let height: i32 = 320;
    let margin: i32 = 24;
    let content: i32 = width - 2 * margin;
    let button_width: i32 = 90;
    let button_height: i32 = 30;
    let button_y: i32 = 178;
    let cancel_x: i32 = margin + content - button_width;
    DialogLayout {
        width,
        height,
        style_label: ControlRect { x: margin, y: 18, width: content, height: 20 },
        version_list: ControlRect { x: margin, y: 42, width: content, height: 200 },
        options_label: ControlRect { x: margin, y: 78, width: content, height: 20 },
        mirror_box: ControlRect { x: margin, y: 104, width: content, height: 24 },
        skip_intro_box: ControlRect { x: margin, y: 134, width: content, height: 24 },
        cancel_button: ControlRect { x: cancel_x, y: button_y, width: button_width, height: button_height },
        ok_button: ControlRect {
            x: cancel_x - button_width - 10,
            y: button_y,
            width: button_width,
            height: button_height,
        },
    }
}

/// The dialog saves only when OK is pressed, and it closes only on OK,
/// Cancel or its close box; pointer moves, clicks elsewhere and other
/// control notifications leave it open.
pub proof fn lemma_dialog_closes_only_on_request(message: DialogMessage)
    ensures
        spec_dialog_reaction(message) == DialogReaction::SaveAndClose <==> (message matches DialogMessage::Command(w) && w % 0x10000 == IDC_OK),
        spec_dialog_reaction(message) == DialogReaction::CancelAndClose <==> (message == DialogMessage::Close || (message matches DialogMessage::Command(w) && w % 0x10000 == IDC_CANCEL)),
        message == DialogMessage::Other ==> spec_dialog_reaction(message) == DialogReaction::Default,
{
}

} // verus!
