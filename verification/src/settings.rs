//! The screen saver's settings: the version, the mirror effect and the
//! intro, what configuration they select, when a change calls for a new
//! renderer, and how they are stored (the version as a NUL-terminated
//! UTF-16 string, the two switches as 32-bit little-endian flags).
use vstd::prelude::*;

use crate::config::{EffectKind, MatrixConfig, spec_for_version};
use crate::text::{char_from_code, push_char};

verus! {

/// What the user chose for the screen saver.
#[derive(Clone, Debug)]
pub struct SaverSettings {
    pub version: String,
    pub mirror_enabled: bool,
    pub skip_intro: bool,
}

/// Two settings are the same when all three choices agree.
pub open spec fn same_settings(a: SaverSettings, b: SaverSettings) -> bool {
    a.version@ == b.version@ && a.mirror_enabled == b.mirror_enabled && a.skip_intro
        == b.skip_intro
}

/// Whether `settings` already hold the given choices.
pub open spec fn same_choices(settings: SaverSettings, version: Seq<char>, mirror_enabled: bool, skip_intro: bool) -> bool {
    settings.version@ == version && settings.mirror_enabled == mirror_enabled
        && settings.skip_intro == skip_intro
}

/// The configuration that settings select: the version's look, with the
/// mirror effect or the palette effect, and the chosen intro.
pub open spec fn settings_config(version: Seq<char>, mirror_enabled: bool, skip_intro: bool) -> MatrixConfig {
    MatrixConfig {
        effect: if mirror_enabled {
            EffectKind::Mirror
        } else {
            EffectKind::Palette
        },
        skip_intro,
        ..spec_for_version(version)
    }
}

impl SaverSettings {
    pub fn new(version: &str, mirror_enabled: bool, skip_intro: bool) -> (settings: Self)
        ensures
            settings.version@ == version@,
            settings.mirror_enabled == mirror_enabled,
            settings.skip_intro == skip_intro,
    {
        SaverSettings { version: version.to_owned(), mirror_enabled, skip_intro }
    }

    pub fn config(&self) -> (config: MatrixConfig)
        ensures
            config == settings_config(self.version@, self.mirror_enabled, self.skip_intro),
    {
        let mut config = MatrixConfig::for_version(self.version.as_str());
        config.effect = if self.mirror_enabled {
            EffectKind::Mirror
        } else {
            EffectKind::Palette
        };
        config.skip_intro = self.skip_intro;
        config
    }

    pub fn same_as(&self, other: &SaverSettings) -> (same: bool)
        ensures
            same == same_settings(*self, *other),
    {
        self.version == other.version && self.mirror_enabled == other.mirror_enabled
            && self.skip_intro == other.skip_intro
    }
}

/// One side of a surface: at least one pixel.
pub open spec fn at_least_one(side: u32) -> u32 {
    if side < 1 {
        1
    } else {
        side
    }
}

/// What a running screen saver decides on: the settings it renders with
/// and the size of its surface.
pub struct SaverState {
    pub settings: SaverSettings,
    pub size: [u32; 2],
}

impl SaverState {
    /// A saver for a surface of `width` by `height` pixels (each side at
    /// least one) with the given choices.
    pub fn new(width: u32, height: u32, version: &str, mirror_enabled: bool, skip_intro: bool) -> (state: Self)
        ensures
            state.settings.version@ == version@,
            state.settings.mirror_enabled == mirror_enabled,
            state.settings.skip_intro == skip_intro,
            state.size[0] == at_least_one(width),
            state.size[1] == at_least_one(height),
    {
        let width = if width < 1 {
            1
        } else {
            width
        };
        let height = if height < 1 {
            1
        } else {
            height
        };
        SaverState {
            settings: SaverSettings::new(version, mirror_enabled, skip_intro),
            size: [width, height],
        }
    }

    /// The configuration the saver renders with.
    pub fn config(&self) -> (config: MatrixConfig)
        ensures
            config == settings_config(
                self.settings.version@,
                self.settings.mirror_enabled,
                self.settings.skip_intro,
            ),
    {
        self.settings.config()
    }

    /// What new choices call for: nothing (`None`) when they equal the
    /// current settings, otherwise the configuration to build a renderer
    /// with.
    pub fn settings_change(&self, version: &str, mirror_enabled: bool, skip_intro: bool) -> (rebuild: Option<MatrixConfig>)
        ensures
            rebuild is None <==> same_choices(self.settings, version@, mirror_enabled, skip_intro),
            rebuild matches Some(config) ==> config == settings_config(
                version@,
                mirror_enabled,
                skip_intro,
            ),
    {
        let settings = SaverSettings::new(version, mirror_enabled, skip_intro);
        if self.settings.same_as(&settings) {
            None
        } else {
            Some(settings.config())
        }
    }

    /// Takes new choices once the renderer for them was built (`built`) or
    /// failed to build. The settings become the new choices only when they
    /// differ from the current ones and the renderer was built; a failed
    /// build leaves everything as it was. Returns whether the settings
    /// changed (and the renderer is to be replaced).
    pub fn apply_settings(&mut self, version: &str, mirror_enabled: bool, skip_intro: bool, built: bool) -> (applied: bool)
        ensures
            final(self).size == old(self).size,
            applied == (built && !same_choices(old(self).settings, version@, mirror_enabled, skip_intro)),
            applied ==> final(self).settings.version@ == version@
                && final(self).settings.mirror_enabled == mirror_enabled
                && final(self).settings.skip_intro == skip_intro,
            !applied ==> final(self).settings == old(self).settings,
    {
        let settings = SaverSettings::new(version, mirror_enabled, skip_intro);
        if !built || self.settings.same_as(&settings) {
            return false;
        }
        self.settings = settings;
        true
    }

    /// Resizes the surface, each side at least one pixel; `false` when
    /// that is the size it already has, and nothing changes.
    pub fn resize(&mut self, width: u32, height: u32) -> (changed: bool)
        ensures
            final(self).settings == old(self).settings,
            final(self).size[0] == at_least_one(width),
            final(self).size[1] == at_least_one(height),
            changed == !(old(self).size[0] == at_least_one(width) && old(self).size[1]
                == at_least_one(height)),
    {
        let width = if width < 1 {
            1
        } else {
            width
        };
        let height = if height < 1 {
            1
        } else {
            height
        };
        if self.size[0] == width && self.size[1] == height {
            return false;
        }
        self.size = [width, height];
        true
    }
}

/// The version a host hands over: the given name, or "classic" when there
/// is none (no string, or one that is not valid text).
pub fn version_or_classic(version: Option<&str>) -> (name: String)
    ensures
        name@ == (match version {
            Some(v) => v@,
            None => "classic"@,
        }),
{
    match version {
        Some(v) => v.to_owned(),
        None => "classic".to_owned(),
    }
}

/// The UTF-16 code units of a character: one unit below 0x10000, a
/// surrogate pair above.
pub open spec fn utf16_units(c: char) -> Seq<u16> {
    let code = c as u32 as int;
    if code < 0x10000 {
        seq![code as u16]
    } else {
        let v = code - 0x10000;
        seq![(0xD800 + v / 0x400) as u16, (0xDC00 + v % 0x400) as u16]
    }
}

/// The UTF-16 encoding of a string.
pub open spec fn encode_utf16(s: Seq<char>) -> Seq<u16>
    decreases s.len(),
{
    if s.len() == 0 {
        seq![]
    } else {
        utf16_units(s[0]) + encode_utf16(s.drop_first())
    }
}

/// The replacement character that stands for an unpaired surrogate.
pub open spec fn replacement_char() -> char {
    '\u{FFFD}'
}

/// Lossy UTF-16 decoding: a unit outside the surrogate range is its own
/// character, a high surrogate followed by a low one is a pair, and any
/// other surrogate becomes U+FFFD.
pub open spec fn decode_utf16(units: Seq<u16>) -> Seq<char>
    decreases units.len(),
{
    if units.len() == 0 {
        seq![]
    } else {
        let u = units[0] as int;
        if u < 0xD800 || u > 0xDFFF {
            seq![u as u32 as char] + decode_utf16(units.drop_first())
        } else if u <= 0xDBFF && units.len() >= 2 && 0xDC00 <= units[1] <= 0xDFFF {
            seq![(0x10000 + (u - 0xD800) * 0x400 + (units[1] - 0xDC00)) as u32 as char]
                + decode_utf16(units.skip(2))
        } else {
            seq![replacement_char()] + decode_utf16(units.drop_first())
        }
    }
}

/// Little-endian bytes of UTF-16 units.
pub open spec fn units_bytes(units: Seq<u16>) -> Seq<u8>
    decreases units.len(),
{
    if units.len() == 0 {
        seq![]
    } else {
        seq![(units[0] % 256) as u8, (units[0] / 256) as u8] + units_bytes(units.drop_first())
    }
}

/// The UTF-16 units that little-endian bytes hold; an odd last byte is
/// left out.
pub open spec fn bytes_units(bytes: Seq<u8>) -> Seq<u16> {
    Seq::new(bytes.len() / 2, |i: int| (bytes[2 * i] + 256 * bytes[2 * i + 1]) as u16)
}

/// `s` without the NUL characters at its end.
pub open spec fn trim_trailing_nul(s: Seq<char>) -> Seq<char>
    decreases s.len(),
{
    if s.len() > 0 && s.last() == '\0' {
        trim_trailing_nul(s.drop_last())
    } else {
        s
    }
}

/// The stored form of a version: its UTF-16 encoding with a NUL
/// terminator, as little-endian bytes.
pub open spec fn spec_version_bytes(version: Seq<char>) -> Seq<u8> {
    units_bytes(encode_utf16(version) + seq![0u16])
}

/// The version read back from its stored bytes: decoded, NUL characters
/// at the end removed, and "classic" when nothing is left or nothing was
/// stored.
pub open spec fn spec_stored_version(bytes: Option<Seq<u8>>) -> Seq<char> {
    let text = match bytes {
        Some(b) => trim_trailing_nul(decode_utf16(bytes_units(b))),
        None => Seq::<char>::empty(),
    };
    if text.len() == 0 {
        "classic"@
    } else {
        text
    }
}

/// The UTF-16 units of one character.
fn char_units(c: char) -> (units: (u16, Option<u16>))
    ensures
        utf16_units(c) == (match units.1 {
            None => seq![units.0],
            Some(low) => seq![units.0, low],
        }),
{
    let code = c as u32;
    if code < 0x10000 {
        (code as u16, None)
    } else {
        let v = code - 0x10000;
        ((0xD800 + v / 0x400) as u16, Some((0xDC00 + v % 0x400) as u16))
    }
}

/// The bytes under which a version is stored.
pub fn version_bytes(version: &str) -> (bytes: Vec<u8>)
    ensures
        bytes@ == spec_version_bytes(version@),
{
    let chars = crate::text::chars_of(version);
    let mut bytes: Vec<u8> = Vec::new();
    let mut i: usize = 0;
    assert(chars@.skip(0) =~= chars@);
    while i < chars.len()
        invariant
            chars@ == version@,
            0 <= i <= chars@.len(),
            bytes@ + units_bytes(encode_utf16(chars@.skip(i as int)) + seq![0u16])
                == spec_version_bytes(version@),
        decreases chars@.len() - i,
    {
        let ghost rest = chars@.skip(i as int);
        let ghost before = bytes@;
        assert(rest.drop_first() =~= chars@.skip(i + 1));
        let (high, low) = char_units(chars[i]);
        proof {
            lemma_units_bytes_append(utf16_units(rest[0]), encode_utf16(rest.drop_first()) + seq![0u16]);
        }
        assert(encode_utf16(rest) + seq![0u16] =~= utf16_units(rest[0]) + (encode_utf16(rest.drop_first()) + seq![0u16]));
        bytes.push((high % 256) as u8);
        bytes.push((high / 256) as u8);
        match low {
            Some(l) => {
                bytes.push((l % 256) as u8);
                bytes.push((l / 256) as u8);
                proof {
                    lemma_units_bytes_one(high);
                    lemma_units_bytes_one(l);
                    lemma_units_bytes_append(seq![high], seq![l]);
                    assert(seq![high] + seq![l] =~= seq![high, l]);
                }
            },
            None => {
                proof {
                    lemma_units_bytes_one(high);
                }
            },
        }
        assert(bytes@ + units_bytes(encode_utf16(chars@.skip(i + 1)) + seq![0u16]) =~= before + units_bytes(encode_utf16(rest) + seq![0u16]));
        i += 1;
    }
    assert(encode_utf16(chars@.skip(i as int)) =~= Seq::<u16>::empty());
    proof {
        lemma_units_bytes_one(0u16);
    }
    assert(Seq::<u16>::empty() + seq![0u16] =~= seq![0u16]);
    bytes.push(0);
    bytes.push(0);
    assert(bytes@ =~= spec_version_bytes(version@));
    bytes
}

proof fn lemma_units_bytes_one(u: u16)
    ensures
        units_bytes(seq![u]) == seq![(u % 256) as u8, (u / 256) as u8],
{
    let one = seq![u];
    assert(one.drop_first() =~= Seq::<u16>::empty());
    assert(units_bytes(one.drop_first()) == Seq::<u8>::empty());
    assert(units_bytes(one) =~= seq![(u % 256) as u8, (u / 256) as u8]);
}

proof fn lemma_units_bytes_append(a: Seq<u16>, b: Seq<u16>)
    ensures
        units_bytes(a + b) == units_bytes(a) + units_bytes(b),
    decreases a.len(),
{
    if a.len() == 0 {
        assert(a + b =~= b);
    } else {
        lemma_units_bytes_append(a.drop_first(), b);
        assert((a + b).drop_first() =~= a.drop_first() + b);
    }
}

/// The UTF-16 units that stored bytes hold.
fn units_of_bytes(bytes: &[u8]) -> (units: Vec<u16>)
    ensures
        units@ == bytes_units(bytes@),
{
    let len = bytes.len();
    let count = len / 2;
    let mut units: Vec<u16> = Vec::new();
    let mut i: usize = 0;
    while i < count
        invariant
            len == bytes@.len(),
            count == len / 2,
            0 <= i <= count,
            units@ == bytes_units(bytes@).take(i as int),
        decreases count - i,
    {
        assert(2 * i + 1 < len);
        let unit = (bytes[2 * i] as u16) + 256 * (bytes[2 * i + 1] as u16);
        units.push(unit);
        i += 1;
        assert(units@ =~= bytes_units(bytes@).take(i as int));
    }
    assert(units@ =~= bytes_units(bytes@));
    units
}

/// Lossy UTF-16 decoding.
pub fn decode_units(units: &Vec<u16>) -> (chars: Vec<char>)
    ensures
        chars@ == decode_utf16(units@),
{
    let n = units.len();
    let mut chars: Vec<char> = Vec::new();
    let mut i: usize = 0;
    assert(units@.skip(0) =~= units@);
    while i < n
        invariant
            n == units@.len(),
            0 <= i <= n,
            chars@ + decode_utf16(units@.skip(i as int)) == decode_utf16(units@),
        decreases n - i,
    {
        let ghost rest = units@.skip(i as int);
        let ghost before = chars@;
        let u = units[i];
        if u < 0xD800 || u > 0xDFFF {
            match char_from_code(u as u32) {
                Some(c) => {
                    chars.push(c);
                },
                None => {
                    assert(false);
                },
            }
            assert(rest.drop_first() =~= units@.skip(i + 1));
            assert(before + (seq![u as u32 as char] + decode_utf16(units@.skip(i + 1))) =~= chars@
                + decode_utf16(units@.skip(i + 1)));
            i += 1;
        } else if u <= 0xDBFF && i + 1 < n && 0xDC00 <= units[i + 1] && units[i + 1] <= 0xDFFF {
            let low = units[i + 1];
            let code: u32 = 0x10000 + ((u - 0xD800) as u32) * 0x400 + ((low - 0xDC00) as u32);
            match char_from_code(code) {
                Some(c) => chars.push(c),
                None => {
                    assert(false);
                },
            }
            assert(rest[1] == low);
            assert(rest.skip(2) =~= units@.skip(i + 2));
            assert(before + (seq![code as char] + decode_utf16(units@.skip(i + 2))) =~= chars@
                + decode_utf16(units@.skip(i + 2)));
            i += 2;
        } else {
            chars.push('\u{FFFD}');
            assert(rest.drop_first() =~= units@.skip(i + 1));
            assert(before + (seq![replacement_char()] + decode_utf16(units@.skip(i + 1))) =~= chars@
                + decode_utf16(units@.skip(i + 1)));
            i += 1;
        }
    }
    assert(units@.skip(n as int) =~= Seq::<u16>::empty());
    assert(chars@ =~= chars@ + decode_utf16(units@.skip(n as int)));
    chars
}

/// The version read back from the stored bytes (`None` when nothing could
/// be read).
pub fn stored_version(bytes: Option<&[u8]>) -> (version: String)
    ensures
        version@ == spec_stored_version(
            match bytes {
                Some(b) => Some(b@),
                None => None,
            },
        ),
{
    let mut chars: Vec<char> = Vec::new();
    match bytes {
        Some(b) => {
            let units = units_of_bytes(b);
            chars = decode_units(&units);
        },
        None => {},
    }
    let ghost decoded = chars@;
    while chars.len() > 0 && chars[chars.len() - 1] == '\0'
        invariant
            trim_trailing_nul(chars@) == trim_trailing_nul(decoded),
        decreases chars@.len(),
    {
        let ghost before = chars@;
        chars.pop();
        assert(chars@ =~= before.drop_last());
    }
    if chars.len() == 0 {
        return "classic".to_owned();
    }
    let mut version = String::new();
    let mut k: usize = 0;
    while k < chars.len()
        invariant
            0 <= k <= chars@.len(),
            version@ == chars@.take(k as int),
        decreases chars@.len() - k,
    {
        push_char(&mut version, chars[k]);
        k += 1;
        assert(version@ =~= chars@.take(k as int));
    }
    assert(chars@.take(chars@.len() as int) =~= chars@);
    version
}

/// The number a switch is stored as: 1 when on, 0 when off.
pub fn flag_dword(on: bool) -> (value: u32)
    ensures
        value == (if on { 1u32 } else { 0u32 }),
{
    if on { 1 } else { 0 }
}

/// Settings as read back from storage: the stored version (or
/// "classic"), and each switch on when its stored number is not zero.
pub fn settings_from_store(version: Option<&[u8]>, mirror: u32, skip_intro: u32) -> (settings: SaverSettings)
    ensures
        settings.version@ == spec_stored_version(
            match version {
                Some(b) => Some(b@),
                None => None,
            },
        ),
        settings.mirror_enabled == (mirror != 0),
        settings.skip_intro == (skip_intro != 0),
{
    SaverSettings {
        version: stored_version(version),
        mirror_enabled: mirror != 0,
        skip_intro: skip_intro != 0,
    }
}

proof fn lemma_bytes_units_inverse(units: Seq<u16>)
    ensures
        bytes_units(units_bytes(units)) == units,
    decreases units.len(),
{
    if units.len() > 0 {
        lemma_bytes_units_inverse(units.drop_first());
        let rest = units_bytes(units.drop_first());
        let all = units_bytes(units);
        assert(all == seq![(units[0] % 256) as u8, (units[0] / 256) as u8] + rest);
        assert forall|i: int| 0 <= i < units.len() implies #[trigger] bytes_units(all)[i] == units[i] by {
            if i == 0 {
                assert(all[0] + 256 * all[1] == units[0]);
            } else {
                assert(all[2 * i] == rest[2 * (i - 1)]);
                assert(all[2 * i + 1] == rest[2 * (i - 1) + 1]);
                assert(bytes_units(rest)[i - 1] == units.drop_first()[i - 1]);
            }
        }
        assert(bytes_units(all) =~= units);
    }
}

proof fn lemma_units_bytes_len(units: Seq<u16>)
    ensures
        units_bytes(units).len() == 2 * units.len(),
    decreases units.len(),
{
    if units.len() > 0 {
        lemma_units_bytes_len(units.drop_first());
    }
}

proof fn lemma_decode_char(c: char, rest: Seq<u16>)
    ensures
        decode_utf16(utf16_units(c) + rest) == seq![c] + decode_utf16(rest),
{
    let code = c as u32 as int;
    let all = utf16_units(c) + rest;
    if code < 0x10000 {
        assert(all.drop_first() =~= rest);
        assert(all[0] as int == code);
    } else {
        let v = code - 0x10000;
        assert(all.skip(2) =~= rest);
        assert(all[0] as int == 0xD800 + v / 0x400);
        assert(all[1] as int == 0xDC00 + v % 0x400);
        assert(0x10000 + (all[0] as int - 0xD800) * 0x400 + (all[1] as int - 0xDC00) == code);
    }
}

proof fn lemma_decode_encode(s: Seq<char>, tail: Seq<u16>)
    ensures
        decode_utf16(encode_utf16(s) + tail) == s + decode_utf16(tail),
    decreases s.len(),
{
    if s.len() == 0 {
        assert(encode_utf16(s) + tail =~= tail);
        assert(s + decode_utf16(tail) =~= decode_utf16(tail));
    } else {
        lemma_decode_encode(s.drop_first(), tail);
        assert(encode_utf16(s) + tail =~= utf16_units(s[0]) + (encode_utf16(s.drop_first()) + tail));
        lemma_decode_char(s[0], encode_utf16(s.drop_first()) + tail);
        assert(s =~= seq![s[0]] + s.drop_first());
    }
}

/// Storing a version and reading it back gives the version again, for
/// every version that is not empty and does not end with a NUL character.
pub proof fn lemma_version_round_trip(version: Seq<char>)
    requires
        version.len() > 0,
        version.last() != '\0',
    ensures
        spec_stored_version(Some(spec_version_bytes(version))) == version,
{
    let units = encode_utf16(version) + seq![0u16];
    lemma_bytes_units_inverse(units);
    lemma_decode_encode(version, seq![0u16]);
    let zero = seq![0u16];
    assert(zero.drop_first() =~= Seq::<u16>::empty());
    assert(decode_utf16(Seq::<u16>::empty()) =~= Seq::<char>::empty());
    assert(decode_utf16(zero) =~= seq![0u16 as u32 as char]);
    assert(0u16 as u32 as char == '\0');
    let decoded = version + seq!['\0'];
    assert(decoded.drop_last() =~= version);
    assert(decode_utf16(units) == decoded);
    assert(bytes_units(spec_version_bytes(version)) == units);
    assert(trim_trailing_nul(decoded) == trim_trailing_nul(version));
    assert(trim_trailing_nul(version) == version);
}

/// Saving settings and loading them again gives the same settings, for
/// every version that is not empty and does not end with a NUL character.
pub proof fn lemma_settings_round_trip(settings: SaverSettings)
    requires
        settings.version@.len() > 0,
        settings.version@.last() != '\0',
    ensures
        spec_stored_version(Some(spec_version_bytes(settings.version@))) == settings.version@,
        (if settings.mirror_enabled { 1u32 } else { 0u32 } != 0) == settings.mirror_enabled,
        (if settings.skip_intro { 1u32 } else { 0u32 } != 0) == settings.skip_intro,
{
    lemma_version_round_trip(settings.version@);
}

} // verus!
