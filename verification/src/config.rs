//! Declarative configuration of the function row: per-button entries, the
//! row-wide options, theme color parsing, and the built-in defaults.
//!
//! Reading and merging the configuration files happens outside the engine;
//! the engine receives plain values.
use vstd::prelude::*;

verus! {

use vstd::string::*;

/// Key code of the escape key, as the kernel input layer numbers keys.
pub const ESC_KEY_CODE: u16 = 1;

/// Panels at least this many pixels wide get an extra escape button put
/// before every layer's own buttons.
pub const ESC_PANEL_WIDTH_PX: u16 = 2170;

/// One configured button. The first populated field, in the order text,
/// icon, time, battery, volume, brightness, wifi, decides the content
/// variant; an entry with none of them is a spacer.
pub struct ButtonConfig {
    pub icon: Option<String>,
    pub text: Option<String>,
    pub theme: Option<String>,
    pub time: Option<String>,
    pub battery: Option<String>,
    pub locale: Option<String>,
    pub action: Vec<u16>,
    pub stretch: Option<usize>,
    pub volume: Option<bool>,
    pub brightness: Option<bool>,
    pub wifi: Option<bool>,
    pub niri_workspaces: Option<bool>,
    pub niri_window_title: Option<bool>,
}

/// Row-wide options that the engine's decisions depend on.
pub struct Config {
    pub show_button_outlines: bool,
    pub enable_pixel_shift: bool,
    pub adaptive_brightness: bool,
    pub active_brightness: u32,
}

/// An empty button-configuration entry; the fields a caller populates pick
/// the content variant.
pub fn empty_button_config() -> (r: ButtonConfig)
    ensures
        r.icon is None,
        r.text is None,
        r.theme is None,
        r.time is None,
        r.battery is None,
        r.locale is None,
        r.action@ == Seq::<u16>::empty(),
        r.stretch is None,
        r.volume is None,
        r.brightness is None,
        r.wifi is None,
        r.niri_workspaces is None,
        r.niri_window_title is None,
{
    ButtonConfig {
        icon: None,
        text: None,
        theme: None,
        time: None,
        battery: None,
        locale: None,
        action: Vec::new(),
        stretch: None,
        volume: None,
        brightness: None,
        wifi: None,
        niri_workspaces: None,
        niri_window_title: None,
    }
}

/// True of a hexadecimal digit in either case.
pub open spec fn spec_is_hex_digit(c: char) -> bool {
    ('0' <= c && c <= '9') || ('a' <= c && c <= 'f') || ('A' <= c && c <= 'F')
}

/// Numeric value of a hexadecimal digit.
pub open spec fn spec_hex_val(c: char) -> int {
    if '0' <= c && c <= '9' {
        c as u32 - '0' as u32
    } else if 'a' <= c && c <= 'f' {
        c as u32 - 'a' as u32 + 10
    } else {
        c as u32 - 'A' as u32 + 10
    }
}

/// The string with every leading `#` removed.
pub open spec fn spec_strip_hashes(s: Seq<char>) -> Seq<char>
    decreases s.len(),
{
    if s.len() > 0 && s[0] == '#' {
        spec_strip_hashes(s.skip(1))
    } else {
        s
    }
}

proof fn lemma_strip_hashes(s: Seq<char>, i: int)
    requires
        0 <= i <= s.len(),
        forall|j: int| 0 <= j < i ==> s[j] == '#',
        i == s.len() || s[i] != '#',
    ensures
        spec_strip_hashes(s) == s.skip(i),
    decreases i,
{
    if i == 0 {
        assert(s.skip(0) =~= s);
    } else {
        assert(s[0] == '#');
        lemma_strip_hashes(s.skip(1), i - 1);
        assert(s.skip(1).skip(i - 1) =~= s.skip(i));
    }
}

/// Value of one hex digit; the caller has checked the digit.
fn hex_val(c: char) -> (r: u32)
    requires
        spec_is_hex_digit(c),
    ensures
        r == spec_hex_val(c),
        r < 16,
{
    if '0' <= c && c <= '9' {
        c as u32 - '0' as u32
    } else if 'a' <= c && c <= 'f' {
        c as u32 - 'a' as u32 + 10
    } else {
        c as u32 - 'A' as u32 + 10
    }
}

/// Whether, after stripping leading `#`, the string is exactly six hex
/// digits: the accepted shape of a theme color.
pub open spec fn spec_valid_color(s: Seq<char>) -> bool {
    let t = spec_strip_hashes(s);
    t.len() == 6 && forall|j: int| 0 <= j < 6 ==> spec_is_hex_digit(#[trigger] t[j])
}

/// The channel values of a valid color string, red, green, blue.
pub open spec fn spec_color_channels(s: Seq<char>) -> (int, int, int) {
    let t = spec_strip_hashes(s);
    (
        16 * spec_hex_val(t[0]) + spec_hex_val(t[1]),
        16 * spec_hex_val(t[2]) + spec_hex_val(t[3]),
        16 * spec_hex_val(t[4]) + spec_hex_val(t[5]),
    )
}

/// Parses a `#rrggbb` theme color into its three channels, each 0..=255;
/// `None` iff the string is not six hex digits after the leading `#`s.
pub fn hex_to_rgb(s: &str) -> (r: Option<(u8, u8, u8)>)
    ensures
        r is Some <==> spec_valid_color(s@),
        r matches Some(rgb) ==> {
            let (cr, cg, cb) = spec_color_channels(s@);
            rgb.0 == cr && rgb.1 == cg && rgb.2 == cb
        },
{
    let n = s.unicode_len();
    let mut i: usize = 0;
    while i < n && s.get_char(i) == '#'
        invariant
            i <= n,
            n == s@.len(),
            forall|j: int| 0 <= j < i ==> s@[j] == '#',
        decreases n - i,
    {
        i += 1;
    }
    proof {
        lemma_strip_hashes(s@, i as int);
    }
    if n - i != 6 {
        return None;
    }
    let ghost t = s@.skip(i as int);
    let mut vals: [u32; 6] = [0; 6];
    let mut k: usize = 0;
    while k < 6
        invariant
            k <= 6,
            i + 6 == n,
            n == s@.len(),
            t == s@.skip(i as int),
            t.len() == 6,
            spec_strip_hashes(s@) == t,
            forall|j: int| 0 <= j < k ==> spec_is_hex_digit(#[trigger] t[j]),
            forall|j: int| 0 <= j < k ==> vals@[j] == spec_hex_val(t[j]),
            forall|j: int| 0 <= j < k ==> vals@[j] < 16,
        decreases 6 - k,
    {
        let c = s.get_char(i + k);
        assert(c == t[k as int]);
        let is_digit = ('0' <= c && c <= '9') || ('a' <= c && c <= 'f') || ('A' <= c && c <= 'F');
        if !is_digit {
            return None;
        }
        let v = hex_val(c);
        vals[k] = v;
        k += 1;
    }
    let red = 16 * vals[0] + vals[1];
    let green = 16 * vals[2] + vals[3];
    let blue = 16 * vals[4] + vals[5];
    Some((red as u8, green as u8, blue as u8))
}

/// True of the extra escape entry put before wide panels' layers.
pub open spec fn spec_is_esc_config(c: ButtonConfig) -> bool {
    &&& c.text matches Some(t) && t@ == "esc"@
    &&& c.action@ =~= seq![ESC_KEY_CODE]
    &&& c.icon is None
    &&& c.time is None
    &&& c.battery is None
    &&& c.stretch is None
    &&& c.niri_workspaces is None
    &&& c.niri_window_title is None
}

/// On a wide panel, puts an escape button before a layer's configured
/// buttons; otherwise leaves the configuration untouched.
pub fn maybe_prepend_esc(keys: Vec<ButtonConfig>, width: u16) -> (r: Vec<ButtonConfig>)
    ensures
        width < ESC_PANEL_WIDTH_PX ==> r@ =~= keys@,
        width >= ESC_PANEL_WIDTH_PX ==> {
            &&& r@.len() == keys@.len() + 1
            &&& spec_is_esc_config(r@[0])
            &&& r@.skip(1) =~= keys@
        },
{
    if width < ESC_PANEL_WIDTH_PX {
        return keys;
    }
    let mut esc = empty_button_config();
    esc.text = Some("esc".to_owned());
    let mut action: Vec<u16> = Vec::new();
    action.push(ESC_KEY_CODE);
    esc.action = action;
    let mut r = keys;
    r.insert(0, esc);
    r
}

/// The built-in information layer: the compositor's workspaces, the
/// focused window's title (six width units), and a clock with seconds
/// (four width units).
pub fn default_info_layer_keys() -> (r: Vec<ButtonConfig>)
    ensures
        r@.len() == 3,
        r@[0].niri_workspaces == Some(true),
        r@[0].stretch is None,
        r@[1].niri_window_title == Some(true),
        r@[1].stretch == Some(6usize),
        r@[2].time matches Some(t) && t@ == "%a %b %d %I:%M:%S %p"@,
        r@[2].stretch == Some(4usize),
        r@[2].niri_workspaces is None && r@[2].niri_window_title is None,
        forall|i: int| 0 <= i < 3 ==> (#[trigger] r@[i]).text is None
            && r@[i].icon is None && r@[i].battery is None,
        r@[0].time is None && r@[1].time is None,
{
    let mut ws = empty_button_config();
    ws.niri_workspaces = Some(true);
    let mut title = empty_button_config();
    title.niri_window_title = Some(true);
    title.stretch = Some(6);
    let mut clock = empty_button_config();
    clock.time = Some("%a %b %d %I:%M:%S %p".to_owned());
    clock.stretch = Some(4);
    let mut r: Vec<ButtonConfig> = Vec::new();
    r.push(ws);
    r.push(title);
    r.push(clock);
    r
}

} // verus!
