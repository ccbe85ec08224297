use tank::dialog::{
    DialogMessage, DialogReaction, IDC_CANCEL, IDC_OK, SAVER_VERSION_COUNT, dialog_layout, dialog_reaction,
    dialog_settings, saver_version, saver_versions, version_position,
};
use tank::settings::SaverSettings;
use tank::window::{LoopStep, PointerWatch, SaverMessage, SaverReaction, client_extent, loop_step};

fn packed(x: i32, y: i32) -> isize {
    (((y as u32 & 0xffff) << 16) | (x as u32 & 0xffff)) as isize
}

#[test]
fn keys_and_clicks_dismiss_the_saver() {
    let mut watch = PointerWatch::new();
    assert_eq!(watch.react(SaverMessage::KeyOrButton), SaverReaction::StopAndClose);
    assert_eq!(watch.react(SaverMessage::Close), SaverReaction::StopAndClose);
    assert_eq!(watch.react(SaverMessage::Destroy), SaverReaction::StopAndQuit);
    assert_eq!(watch.react(SaverMessage::Other), SaverReaction::Default);
}

#[test]
fn small_pointer_moves_are_tolerated() {
    let mut watch = PointerWatch::new();
    assert_eq!(watch.react(SaverMessage::MouseMove(packed(100, 200))), SaverReaction::Ignore);
    assert_eq!(watch.origin, Some((100, 200)));
    assert_eq!(watch.react(SaverMessage::MouseMove(packed(105, 195))), SaverReaction::Ignore);
    assert_eq!(watch.react(SaverMessage::MouseMove(packed(95, 205))), SaverReaction::Ignore);
    assert_eq!(watch.origin, Some((100, 200)));
    assert_eq!(watch.react(SaverMessage::MouseMove(packed(106, 200))), SaverReaction::StopAndClose);
    assert_eq!(watch.react(SaverMessage::MouseMove(packed(100, 194))), SaverReaction::StopAndClose);
}

#[test]
fn pointer_positions_are_signed_words() {
    let mut watch = PointerWatch::new();
    watch.react(SaverMessage::MouseMove(packed(-3, -4)));
    assert_eq!(watch.origin, Some((-3, -4)));
    assert_eq!(watch.react(SaverMessage::MouseMove(packed(2, 1))), SaverReaction::Ignore);
    assert_eq!(watch.react(SaverMessage::MouseMove(packed(3, 1))), SaverReaction::StopAndClose);
}

#[test]
fn size_messages_resize_at_least_to_one_pixel() {
    let mut watch = PointerWatch::new();
    assert_eq!(watch.react(SaverMessage::Size(packed(1920, 1080))), SaverReaction::Resize(1920, 1080));
    assert_eq!(watch.react(SaverMessage::Size(0)), SaverReaction::Resize(1, 1));
    assert_eq!(watch.origin, None);
}

#[test]
fn client_area_is_never_empty() {
    assert_eq!(client_extent(0, 0, 1920, 1080), [1920, 1080]);
    assert_eq!(client_extent(10, 10, 10, 5), [1, 1]);
    assert_eq!(client_extent(i32::MIN, 0, i32::MAX, 2), [u32::MAX, 2]);
}

#[test]
fn message_loop_turns() {
    assert_eq!(loop_step(false, true, true), LoopStep::Stop);
    assert_eq!(loop_step(true, true, true), LoopStep::Dispatch);
    assert_eq!(loop_step(true, false, true), LoopStep::Render);
    assert_eq!(loop_step(true, false, false), LoopStep::Wait);
}

#[test]
fn dialog_lists_fourteen_versions() {
    let versions = saver_versions();
    assert_eq!(versions.len(), SAVER_VERSION_COUNT);
    assert_eq!(versions[0], "classic");
    assert_eq!(versions[13], "3d");
    assert_eq!(saver_version(10), "palimpsest");
    assert_eq!(version_position("classic"), Some(0));
    assert_eq!(version_position("holoplay"), Some(12));
    assert_eq!(version_position("2003"), None);
    for (i, v) in versions.iter().enumerate() {
        assert_eq!(version_position(v), Some(i));
    }
}

#[test]
fn ok_saves_what_the_controls_show() {
    let loaded = SaverSettings::new("classic", false, false);
    let saved = dialog_settings(&loaded, Some(2), Some(1), Some(0));
    assert_eq!(saved.version, "neomatrixology");
    assert!(saved.mirror_enabled);
    assert!(!saved.skip_intro);
    let kept = dialog_settings(&loaded, Some(-1), None, Some(1));
    assert_eq!(kept.version, "classic");
    assert!(!kept.mirror_enabled);
    assert!(kept.skip_intro);
    let out_of_range = dialog_settings(&loaded, Some(14), Some(0), Some(0));
    assert_eq!(out_of_range.version, "classic");
}

#[test]
fn untouched_dialog_saves_the_loaded_settings() {
    for loaded in [SaverSettings::new("twilight", true, false), SaverSettings::new("2021", false, true)] {
        let selection = match version_position(&loaded.version) {
            Some(i) => i as isize,
            None => -1,
        };
        let saved = dialog_settings(
            &loaded,
            Some(selection),
            Some(loaded.mirror_enabled as isize),
            Some(loaded.skip_intro as isize),
        );
        assert!(saved.same_as(&loaded));
    }
}

#[test]
fn dialog_messages() {
    assert_eq!(dialog_reaction(DialogMessage::InitDialog), DialogReaction::Initialized);
    assert_eq!(dialog_reaction(DialogMessage::Command(IDC_OK)), DialogReaction::SaveAndClose);
    assert_eq!(dialog_reaction(DialogMessage::Command(IDC_CANCEL)), DialogReaction::CancelAndClose);
    assert_eq!(dialog_reaction(DialogMessage::Command((1 << 16) | IDC_OK)), DialogReaction::SaveAndClose);
    assert_eq!(dialog_reaction(DialogMessage::Command(1001)), DialogReaction::Ignore);
    assert_eq!(dialog_reaction(DialogMessage::Close), DialogReaction::CancelAndClose);
    assert_eq!(dialog_reaction(DialogMessage::Destroy), DialogReaction::Quit);
    assert_eq!(dialog_reaction(DialogMessage::Other), DialogReaction::Default);
}

#[test]
fn dialog_layout_positions() {
    let layout = dialog_layout();
    assert_eq!((layout.width, layout.height), (360, 320));
    assert_eq!(layout.version_list.width, 312);
    assert_eq!(layout.cancel_button.x, 246);
    assert_eq!(layout.ok_button.x, 146);
    assert_eq!(layout.ok_button.y, 178);
    assert_eq!(layout.skip_intro_box.y, 134);
}
