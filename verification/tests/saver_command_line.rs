use tank::command::{SaverCommand, command_for_switch, parse_u64_radix, parse_window_handle, saver_command};

fn args(list: &[&str]) -> Vec<String> {
    list.iter().map(|s| s.to_string()).collect()
}

#[test]
fn switches() {
    assert_eq!(saver_command(&args(&["tank.scr", "/s"])), SaverCommand::Fullscreen);
    assert_eq!(saver_command(&args(&["tank.scr"])), SaverCommand::Fullscreen);
    assert_eq!(saver_command(&args(&["tank.scr", "/c"])), SaverCommand::Configure);
    assert_eq!(saver_command(&args(&["tank.scr", "/C:1234"])), SaverCommand::Configure);
    assert_eq!(saver_command(&args(&["tank.scr", "/p", "1a2b"])), SaverCommand::Preview(0x1a2b));
    assert_eq!(saver_command(&args(&["tank.scr", "/P", "0x10"])), SaverCommand::Preview(16));
    assert_eq!(saver_command(&args(&["tank.scr", "/p:ff"])), SaverCommand::Preview(255));
    assert_eq!(saver_command(&args(&["tank.scr", "/whatever"])), SaverCommand::Fullscreen);
    assert_eq!(saver_command(&args(&["tank.scr", "/C"])), SaverCommand::Configure);
    assert_eq!(saver_command(&args(&["tank.scr", "/S"])), SaverCommand::Fullscreen);
    assert_eq!(saver_command(&args(&["tank.scr", "/P:FF"])), SaverCommand::Preview(255));
}

#[test]
fn preview_without_a_window_does_nothing() {
    assert_eq!(saver_command(&args(&["tank.scr", "/p"])), SaverCommand::Quit);
    assert_eq!(saver_command(&args(&["tank.scr", "/p", "0"])), SaverCommand::Quit);
    assert_eq!(saver_command(&args(&["tank.scr", "/p", "zz"])), SaverCommand::Quit);
    assert_eq!(saver_command(&args(&["tank.scr", "/p:"])), SaverCommand::Quit);
}

#[test]
fn window_handles_are_hex_first() {
    assert_eq!(parse_window_handle("10"), Some(16));
    assert_eq!(parse_window_handle("0x1F"), Some(31));
    assert_eq!(parse_window_handle("0x0X1F"), Some(31));
    assert_eq!(parse_window_handle("0X0x1F"), None);
    assert_eq!(parse_window_handle("0x0x10"), Some(16));
    assert_eq!(parse_window_handle("0"), None);
    assert_eq!(parse_window_handle(""), None);
    assert_eq!(parse_window_handle("-5"), None);
    assert_eq!(parse_window_handle("+ff"), Some(255));
    assert_eq!(parse_window_handle("ffffffffffffffff"), Some(-1));
    assert_eq!(parse_window_handle("1ffffffffffffffff"), None);
}

#[test]
fn radix_parsing_matches_std() {
    for (text, radix) in [("ff", 16u32), ("FF", 16), ("123", 10), ("12a", 10), ("", 10), ("+", 16), ("+7", 10), ("18446744073709551615", 10), ("18446744073709551616", 10), ("zz", 36)] {
        assert_eq!(parse_u64_radix(text, radix), u64::from_str_radix(text, radix).ok(), "{:?}", (text, radix));
    }
}

#[test]
fn switch_matching_is_on_the_lowered_switch() {
    assert_eq!(command_for_switch("/c:", None), SaverCommand::Configure);
    assert_eq!(command_for_switch("/C", None), SaverCommand::Fullscreen);
    assert_eq!(command_for_switch("/p", Some("abc")), SaverCommand::Preview(0xabc));
}
