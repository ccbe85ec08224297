//! The desktop viewer's decisions: which keys do what, and how the
//! configuration it renders with changes. Digits pick one of ten versions,
//! `~` (the backquote key) switches the intro off or on, `R` goes back to
//! the default version, `E` cycles the visual effects, `D` and `F3` switch
//! the debug view, and Escape or `Q` quit.
use vstd::prelude::*;

use crate::config::{EffectKind, MatrixConfig, spec_for_version, spec_next_visual};
use crate::text::str_equal;

verus! {

/// The version the viewer starts with and that `R` goes back to.
pub open spec fn spec_default_version() -> Seq<char> {
    "classic"@
}

/// The version that the digit key `digit` selects.
pub open spec fn spec_viewer_version(digit: u8) -> Option<Seq<char>> {
    if digit == 0 {
        Some("3d"@)
    } else if digit == 1 {
        Some("neomatrixology"@)
    } else if digit == 2 {
        Some("megacity"@)
    } else if digit == 3 {
        Some("operator"@)
    } else if digit == 4 {
        Some("resurrections"@)
    } else if digit == 5 {
        Some("paradise"@)
    } else if digit == 6 {
        Some("nightmare"@)
    } else if digit == 7 {
        Some("trinity"@)
    } else if digit == 8 {
        Some("morpheus"@)
    } else if digit == 9 {
        Some("bugs"@)
    } else {
        None
    }
}

/// The version that the digit key `digit` selects, if any.
pub fn viewer_version(digit: u8) -> (version: Option<&'static str>)
    ensures
        match version {
            Some(v) => spec_viewer_version(digit) == Some(v@),
            None => spec_viewer_version(digit) is None,
        },
{
    let version = match digit {
        0 => "3d",
        1 => "neomatrixology",
        2 => "megacity",
        3 => "operator",
        4 => "resurrections",
        5 => "paradise",
        6 => "nightmare",
        7 => "trinity",
        8 => "morpheus",
        9 => "bugs",
        _ => {
            return None;
        },
    };
    proof {
        reveal_strlit("3d");
        reveal_strlit("neomatrixology");
        reveal_strlit("megacity");
        reveal_strlit("operator");
        reveal_strlit("resurrections");
        reveal_strlit("paradise");
        reveal_strlit("nightmare");
        reveal_strlit("trinity");
        reveal_strlit("morpheus");
        reveal_strlit("bugs");
    }
    Some(version)
}

/// The key as the keyboard layout reads it.
#[derive(Clone, Debug)]
pub enum LogicalKey {
    Escape,
    /// A key that types text.
    Text(String),
    Other,
}

/// The key by its place on the keyboard.
#[derive(Clone, Copy, PartialEq, Eq, Debug)]
pub enum PhysicalKey {
    Backquote,
    /// A digit key of the top row, 0 to 9.
    Digit(u8),
    KeyR,
    KeyE,
    KeyD,
    F3,
    Other,
}

/// What a key press asks of the viewer.
#[derive(Clone, Copy, PartialEq, Eq, Debug)]
pub enum KeyAction {
    Exit,
    ToggleSkipIntro,
    /// Switch to the version that this digit selects.
    SelectVersion(u8),
    ReloadDefault,
    CycleEffect,
    ToggleDebugView,
    Nothing,
}

/// What a key press asks: Escape and `q`/`Q` (as typed) quit; then, by
/// place on the keyboard, the backquote key, the digits, `R`, `E`, `D` and
/// `F3`.
pub open spec fn spec_key_action(logical: LogicalKey, physical: PhysicalKey) -> KeyAction {
    match logical {
        LogicalKey::Escape => KeyAction::Exit,
        LogicalKey::Text(t) if t@ == "q"@ || t@ == "Q"@ => KeyAction::Exit,
        _ => match physical {
            PhysicalKey::Backquote => KeyAction::ToggleSkipIntro,
            PhysicalKey::Digit(d) => if spec_viewer_version(d) is Some {
                KeyAction::SelectVersion(d)
            } else {
                KeyAction::Nothing
            },
            PhysicalKey::KeyR => KeyAction::ReloadDefault,
            PhysicalKey::KeyE => KeyAction::CycleEffect,
            PhysicalKey::KeyD => KeyAction::ToggleDebugView,
            PhysicalKey::F3 => KeyAction::ToggleDebugView,
            PhysicalKey::Other => KeyAction::Nothing,
        },
    }
}

fn quits(logical: &LogicalKey) -> (quit: bool)
    ensures
        quit == (match *logical {
            LogicalKey::Escape => true,
            LogicalKey::Text(t) => t@ == "q"@ || t@ == "Q"@,
            LogicalKey::Other => false,
        }),
{
    match logical {
        LogicalKey::Escape => true,
        LogicalKey::Text(t) => str_equal(t.as_str(), "q") || str_equal(t.as_str(), "Q"),
        LogicalKey::Other => false,
    }
}

/// What a key press asks of the viewer.
pub fn key_action(logical: &LogicalKey, physical: PhysicalKey) -> (action: KeyAction)
    ensures
        action == spec_key_action(*logical, physical),
{
    if quits(logical) {
        return KeyAction::Exit;
    }
    match physical {
        PhysicalKey::Backquote => KeyAction::ToggleSkipIntro,
        PhysicalKey::Digit(d) => match viewer_version(d) {
            Some(_) => KeyAction::SelectVersion(d),
            None => KeyAction::Nothing,
        },
        PhysicalKey::KeyR => KeyAction::ReloadDefault,
        PhysicalKey::KeyE => KeyAction::CycleEffect,
        PhysicalKey::KeyD | PhysicalKey::F3 => KeyAction::ToggleDebugView,
        PhysicalKey::Other => KeyAction::Nothing,
    }
}

/// The look of `version`, keeping the intro choice and the effect of
/// `config`.
pub open spec fn spec_with_version(config: MatrixConfig, version: Seq<char>) -> MatrixConfig {
    MatrixConfig { skip_intro: config.skip_intro, effect: config.effect, ..spec_for_version(version) }
}

/// `config` with the intro switched the other way.
pub open spec fn spec_toggle_skip_intro(config: MatrixConfig) -> MatrixConfig {
    MatrixConfig { skip_intro: !config.skip_intro, ..config }
}

/// `config` with the next visual effect.
pub open spec fn spec_cycle_effect(config: MatrixConfig) -> MatrixConfig {
    MatrixConfig { effect: spec_next_visual(config.effect), ..config }
}

/// Switching the debug view: out of it back to the remembered effect, or
/// into it while remembering the current effect. Gives the configuration
/// and the effect remembered.
pub open spec fn spec_toggle_debug(config: MatrixConfig, remembered: EffectKind) -> (MatrixConfig, EffectKind) {
    if config.effect == EffectKind::Off {
        (MatrixConfig { effect: remembered, ..config }, remembered)
    } else {
        (MatrixConfig { effect: EffectKind::Off, ..config }, config.effect)
    }
}

/// What the desktop viewer renders with: the configuration, the window
/// size, and the effect that leaving the debug view returns to.
pub struct State {
    pub config: MatrixConfig,
    pub size: [u32; 2],
    pub remembered_effect: EffectKind,
}

/// How the viewer answers a key press.
#[derive(Clone, Copy, PartialEq, Eq, Debug)]
pub enum KeyResponse {
    /// Leave the event loop.
    Exit,
    /// The configuration changed: rebuild the renderer and redraw.
    Rebuild,
    /// Nothing to do.
    Ignore,
}

impl State {
    /// The viewer remembers a visual effect, the one that leaving the debug
    /// view returns to. Every viewer starts so and every operation keeps it.
    pub open spec fn well_formed(&self) -> bool {
        self.remembered_effect != EffectKind::Off
    }

    /// A viewer of the default version for a window of `width` by `height`
    /// pixels (each side at least one).
    pub fn new(width: u32, height: u32) -> (state: Self)
        ensures
            state.config == spec_for_version(spec_default_version()),
            state.remembered_effect == state.config.effect,
            state.remembered_effect != EffectKind::Off,
            state.well_formed(),
            state.size[0] == (if width < 1 {
                1
            } else {
                width
            }),
            state.size[1] == (if height < 1 {
                1
            } else {
                height
            }),
    {
        let config = MatrixConfig::for_version("classic");
        proof {
            reveal_strlit("classic");
        }
        State {
            config,
            size: [if width < 1 {
                1
            } else {
                width
            }, if height < 1 {
                1
            } else {
                height
            }],
            remembered_effect: config.effect,
        }
    }

    /// Takes a new window size; one with a zero side is ignored.
    pub fn resize(&mut self, width: u32, height: u32) -> (accepted: bool)
        ensures
            old(self).well_formed() ==> final(self).well_formed(),
            accepted == (width > 0 && height > 0),
            accepted ==> final(self).size[0] == width && final(self).size[1] == height,
            !accepted ==> final(self).size == old(self).size,
            final(self).config == old(self).config,
            final(self).remembered_effect == old(self).remembered_effect,
    {
        if width > 0 && height > 0 {
            self.size = [width, height];
            true
        } else {
            false
        }
    }

    /// Switches to the look of `version`, keeping the intro choice and
    /// the effect.
    pub fn set_version(&mut self, version: &str)
        ensures
            old(self).well_formed() ==> final(self).well_formed(),
            final(self).config == spec_with_version(old(self).config, version@),
            final(self).config == (MatrixConfig {
                skip_intro: old(self).config.skip_intro,
                effect: old(self).config.effect,
                ..spec_for_version(version@)
            }),
            final(self).size == old(self).size,
            final(self).remembered_effect == old(self).remembered_effect,
    {
        let skip_intro = self.config.skip_intro;
        let effect = self.config.effect;
        let mut config = MatrixConfig::for_version(version);
        config.skip_intro = skip_intro;
        config.effect = effect;
        self.config = config;
    }

    /// Switches the intro off, or back on.
    pub fn toggle_skip_intro(&mut self)
        ensures
            old(self).well_formed() ==> final(self).well_formed(),
            final(self).config == spec_toggle_skip_intro(old(self).config),
            final(self).size == old(self).size,
            final(self).remembered_effect == old(self).remembered_effect,
    {
        self.config.skip_intro = !self.config.skip_intro;
    }

    /// Switches to the next visual effect.
    pub fn cycle_effect(&mut self)
        ensures
            old(self).well_formed() ==> final(self).well_formed(),
            final(self).config == spec_cycle_effect(old(self).config),
            final(self).size == old(self).size,
            final(self).remembered_effect == old(self).remembered_effect,
    {
        self.config.effect = self.config.effect.next_visual();
    }

    /// Switches the debug view on, or off again.
    pub fn toggle_debug_view(&mut self)
        ensures
            old(self).well_formed() ==> final(self).well_formed(),
            old(self).well_formed() ==> (final(self).config.effect == EffectKind::Off) != (old(self).config.effect == EffectKind::Off),
            (final(self).config, final(self).remembered_effect) == spec_toggle_debug(
                old(self).config,
                old(self).remembered_effect,
            ),
            final(self).size == old(self).size,
    {
        if self.config.effect.is_none() {
            self.config.effect = self.remembered_effect;
        } else {
            self.remembered_effect = self.config.effect;
            self.config.effect = EffectKind::Off;
        }
    }

    /// Answers a key press: quits, or changes the configuration as the key
    /// asks and calls for a rebuild, or ignores it.
    pub fn key_pressed(&mut self, logical: &LogicalKey, physical: PhysicalKey) -> (response: KeyResponse)
        ensures
            old(self).well_formed() ==> final(self).well_formed(),
            final(self).size == old(self).size,
            match spec_key_action(*logical, physical) {
                KeyAction::Exit => response == KeyResponse::Exit && final(self).config == old(self).config,
                KeyAction::Nothing => response == KeyResponse::Ignore && final(self).config
                    == old(self).config,
                KeyAction::ToggleSkipIntro => response == KeyResponse::Rebuild && final(self).config == spec_toggle_skip_intro(old(self).config),
                KeyAction::SelectVersion(d) => response == KeyResponse::Rebuild && final(self).config == spec_with_version(old(self).config, spec_viewer_version(d)->0),
                KeyAction::ReloadDefault => response == KeyResponse::Rebuild && final(self).config
                    == spec_with_version(old(self).config, spec_default_version()),
                KeyAction::CycleEffect => response == KeyResponse::Rebuild && final(self).config
                    == spec_cycle_effect(old(self).config),
                KeyAction::ToggleDebugView => response == KeyResponse::Rebuild && (
                final(self).config,
                final(self).remembered_effect,
                ) == spec_toggle_debug(old(self).config, old(self).remembered_effect),
            },
            !(spec_key_action(*logical, physical) is ToggleDebugView) ==> final(self).remembered_effect == old(self).remembered_effect,
    {
        match key_action(logical, physical) {
            KeyAction::Exit => KeyResponse::Exit,
            KeyAction::Nothing => KeyResponse::Ignore,
            KeyAction::ToggleSkipIntro => {
                self.toggle_skip_intro();
                KeyResponse::Rebuild
            },
            KeyAction::SelectVersion(d) => {
                match viewer_version(d) {
                    Some(version) => {
                        self.set_version(version);
                        KeyResponse::Rebuild
                    },
                    None => KeyResponse::Ignore,
                }
            },
            KeyAction::ReloadDefault => {
                self.set_version("classic");
                proof {
                    reveal_strlit("classic");
                }
                KeyResponse::Rebuild
            },
            KeyAction::CycleEffect => {
                self.cycle_effect();
                KeyResponse::Rebuild
            },
            KeyAction::ToggleDebugView => {
                self.toggle_debug_view();
                KeyResponse::Rebuild
            },
        }
    }
}

/// Switching the intro twice gives back the configuration.
pub proof fn lemma_skip_intro_involution(config: MatrixConfig)
    ensures
        spec_toggle_skip_intro(spec_toggle_skip_intro(config)) == config,
{
}

/// Switching the debug view twice gives back the configuration, and, with
/// a visual effect remembered (as the viewer always has), the viewer is in
/// the debug view after exactly one of the two switches and still
/// remembers a visual effect.
pub proof fn lemma_debug_view_round_trip(config: MatrixConfig, remembered: EffectKind)
    requires
        remembered != EffectKind::Off,
    ensures
        ({
            let once = spec_toggle_debug(config, remembered);
            let twice = spec_toggle_debug(once.0, once.1);
            &&& twice.0 == config
            &&& (once.0.effect == EffectKind::Off) != (twice.0.effect == EffectKind::Off)
            &&& once.1 != EffectKind::Off
            &&& twice.1 != EffectKind::Off
        }),
{
}

/// Cycling the effects never enters the debug view, alternates between the
/// mirror and the palette, and changing the version keeps the effect and
/// the intro choice while taking everything else from the version.
pub proof fn lemma_effects_and_versions(config: MatrixConfig, version: Seq<char>)
    ensures
        spec_cycle_effect(config).effect != EffectKind::Off,
        spec_cycle_effect(spec_cycle_effect(config)).effect == (if config.effect
            == EffectKind::Mirror {
            EffectKind::Mirror
        } else {
            EffectKind::Palette
        }),
        spec_with_version(config, version).effect == config.effect,
        spec_with_version(config, version).skip_intro == config.skip_intro,
        spec_with_version(spec_with_version(config, version), version) == spec_with_version(
            config,
            version,
        ),
{
}

/// Switching versions takes everything from the new version except the
/// intro choice and the effect: the result depends on the old
/// configuration only through those two, switching from a version's own
/// look to it changes nothing, and every other setting (the volumetric
/// rain among them) is the version's.
pub proof fn lemma_version_switch_takes_the_look(
    old_config: MatrixConfig,
    other: MatrixConfig,
    version: Seq<char>,
)
    ensures
        old_config.skip_intro == other.skip_intro && old_config.effect == other.effect
            ==> spec_with_version(old_config, version) == spec_with_version(other, version),
        spec_with_version(spec_for_version(version), version) == spec_for_version(version),
        spec_with_version(old_config, version).volumetric == spec_for_version(version).volumetric,
        spec_with_version(old_config, version).isometric == spec_for_version(version).isometric,
        spec_with_version(old_config, version).font == spec_for_version(version).font,
        spec_with_version(old_config, version).num_columns == spec_for_version(
            version,
        ).num_columns,
        spec_with_version(old_config, version).density == spec_for_version(version).density,
        spec_with_version(old_config, version).palette == spec_for_version(version).palette,
        spec_with_version(old_config, version).skip_intro == old_config.skip_intro,
        spec_with_version(old_config, version).effect == old_config.effect,
{
}

/// Escape and `q` or `Q` always quit, whatever key they sit on.
pub proof fn lemma_quit_keys(physical: PhysicalKey, text: String)
    requires
        text@ == "q"@ || text@ == "Q"@,
    ensures
        spec_key_action(LogicalKey::Escape, physical) == KeyAction::Exit,
        spec_key_action(LogicalKey::Text(text), physical) == KeyAction::Exit,
{
}

} // verus!
