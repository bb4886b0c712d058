//! Buttons: the single visual and interactive units of a layer.
//!
//! A button's content variant is resolved once, from its declarative
//! configuration, in a fixed priority order; the variant then decides how
//! the button is painted, whether it can be pressed, and how often it needs
//! to be refreshed.
use vstd::prelude::*;

use chrono::format::{Item, Numeric, StrftimeItems};

verus! {

use vstd::string::*;

use crate::str_eq;

broadcast use vstd::string::group_string_axioms;

/// Charge state of the battery, as classified from the kernel's status
/// string and the capacity percentage.
#[derive(Clone, Copy, PartialEq, Eq, Structural, Debug)]
pub enum BatteryState {
    NotCharging,
    Charging,
    Low,
}

/// How a battery button presents itself: percentage text, an icon, or both.
#[derive(Eq, PartialEq, Copy, Clone, Structural, Debug)]
pub enum BatteryIconMode {
    Percentage,
    Icon,
    Both,
}

impl BatteryIconMode {
    pub fn should_draw_icon(self) -> (r: bool)
        ensures
            r == (self != BatteryIconMode::Percentage),
    {
        self != BatteryIconMode::Percentage
    }

    pub fn should_draw_text(self) -> (r: bool)
        ensures
            r == (self != BatteryIconMode::Icon),
    {
        self != BatteryIconMode::Icon
    }
}

/// The battery display mode a configured string names, if any.
pub open spec fn spec_parse_battery_mode(s: Seq<char>) -> Option<BatteryIconMode> {
    if s == "icon"@ {
        Some(BatteryIconMode::Icon)
    } else if s == "percentage"@ {
        Some(BatteryIconMode::Percentage)
    } else if s == "both"@ {
        Some(BatteryIconMode::Both)
    } else {
        None
    }
}

/// Parses a configured battery display mode; `None` is a fatal
/// configuration error for the caller.
pub fn parse_battery_mode(s: &str) -> (r: Option<BatteryIconMode>)
    ensures
        r == spec_parse_battery_mode(s@),
{
    if str_eq(s, "icon") {
        Some(BatteryIconMode::Icon)
    } else if str_eq(s, "percentage") {
        Some(BatteryIconMode::Percentage)
    } else if str_eq(s, "both") {
        Some(BatteryIconMode::Both)
    } else {
        None
    }
}

/// Charge state for a given status string (already trimmed) and capacity.
pub open spec fn spec_battery_state(status: Seq<char>, capacity: u32) -> BatteryState {
    if status == "Charging"@ || status == "Full"@ {
        BatteryState::Charging
    } else if status == "Discharging"@ && capacity < 10 {
        BatteryState::Low
    } else {
        BatteryState::NotCharging
    }
}

/// Classifies the battery: charging (or full), low (discharging under 10%),
/// or neither.
pub fn battery_state_from(status: &str, capacity: u32) -> (r: BatteryState)
    ensures
        r == spec_battery_state(status@, capacity),
{
    if str_eq(status, "Charging") || str_eq(status, "Full") {
        BatteryState::Charging
    } else if str_eq(status, "Discharging") && capacity < 10 {
        BatteryState::Low
    } else {
        BatteryState::NotCharging
    }
}

/// Icon bucket for a charging battery: 0-20, 21-30, 31-50, 51-60, 61-80,
/// 81-99, and 100 and up.
pub open spec fn spec_charging_icon_index(capacity: u32) -> usize {
    if capacity <= 20 { 0 }
    else if capacity <= 30 { 1 }
    else if capacity <= 50 { 2 }
    else if capacity <= 60 { 3 }
    else if capacity <= 80 { 4 }
    else if capacity <= 99 { 5 }
    else { 6 }
}

/// Icon bucket for a battery that is not charging: 0 alone, then 1-20,
/// 21-30, 31-50, 51-60, 61-80, 81-99, and 100 and up.
pub open spec fn spec_plain_icon_index(capacity: u32) -> usize {
    if capacity == 0 { 0 }
    else if capacity <= 20 { 1 }
    else if capacity <= 30 { 2 }
    else if capacity <= 50 { 3 }
    else if capacity <= 60 { 4 }
    else if capacity <= 80 { 5 }
    else if capacity <= 99 { 6 }
    else { 7 }
}

/// Selects the battery icon for a capacity percentage.
///
/// Charging icons come in 7 steps, discharging ones in 8; the thresholds
/// are uneven bands of the 0..=100 range.
pub fn battery_icon_index(capacity: u32, charging: bool) -> (r: usize)
    ensures
        charging ==> r == spec_charging_icon_index(capacity) && r < 7,
        !charging ==> r == spec_plain_icon_index(capacity) && r < 8,
{
    if charging {
        if capacity <= 20 { 0 }
        else if capacity <= 30 { 1 }
        else if capacity <= 50 { 2 }
        else if capacity <= 60 { 3 }
        else if capacity <= 80 { 4 }
        else if capacity <= 99 { 5 }
        else { 6 }
    } else {
        if capacity == 0 { 0 }
        else if capacity <= 20 { 1 }
        else if capacity <= 30 { 2 }
        else if capacity <= 50 { 3 }
        else if capacity <= 60 { 4 }
        else if capacity <= 80 { 5 }
        else if capacity <= 99 { 6 }
        else { 7 }
    }
}

/// Which theme color a button's background is painted with.
#[derive(Clone, Copy, PartialEq, Eq, Structural, Debug)]
pub enum ColorRole {
    ButtonInactive,
    ButtonActive,
    Accent,
    Success,
    Warning,
}

/// One structural element of a compiled time format string, reduced to what
/// the refresh policy needs: whether the element shows sub-minute detail.
#[derive(Clone, Copy, PartialEq, Eq, Structural, Debug)]
pub enum TimeTokenKind {
    Second,
    Nanosecond,
    Timestamp,
    Other,
}

/// True iff the token demands a redraw more often than once a minute.
pub open spec fn spec_token_sub_minute(t: TimeTokenKind) -> bool {
    t == TimeTokenKind::Second || t == TimeTokenKind::Nanosecond || t == TimeTokenKind::Timestamp
}

/// Live connection information for a wireless network button.
#[derive(Clone, Debug)]
pub struct WifiInfo {
    pub ssid: String,
    pub signal: i32,
}

/// Current volume as a percentage plus a muted flag; a placeholder source
/// until a mixer is wired up.
pub fn get_volume_percent() -> (r: Option<(u32, bool)>)
    ensures
        r == Some((0u32, true)),
{
    Some((0, true))
}

/// Current backlight brightness as a percentage; a placeholder source.
pub fn get_brightness_percent() -> (r: Option<u32>)
    ensures
        r is None,
{
    None
}

/// Current wireless connection; a placeholder source.
pub fn get_wifi_info() -> (r: Option<WifiInfo>)
    ensures
        r is None,
{
    None
}

/// Wireless signal strength icon, by band of the 0..=100 percentage.
pub fn wifi_icon(signal: i32) -> (r: &'static str)
    ensures
        80 <= signal <= 100 ==> r@ == "\u{f0928}"@,
        60 <= signal <= 79 ==> r@ == "\u{f0925}"@,
        40 <= signal <= 59 ==> r@ == "\u{f0922}"@,
        1 <= signal <= 39 ==> r@ == "\u{f091f}"@,
        signal <= 0 || signal > 100 ==> r@ == "\u{f092f}"@,
{
    if 80 <= signal && signal <= 100 {
        "\u{f0928}"
    } else if 60 <= signal && signal <= 79 {
        "\u{f0925}"
    } else if 40 <= signal && signal <= 59 {
        "\u{f0922}"
    } else if 1 <= signal && signal <= 39 {
        "\u{f091f}"
    } else {
        "\u{f092f}"
    }
}

// What chrono's strftime parser makes of a format string, reduced to the
// sub-minute kinds of its elements; nothing when the format is invalid.
pub uninterp spec fn strftime_items_of(f: Seq<char>) -> Option<Seq<TimeTokenKind>>;

// Whether chrono knows a locale under this name.
pub uninterp spec fn locale_is_known(name: Seq<char>) -> bool;

/// Relies on chrono's strftime parser: compiles a time format string into
/// its elements, each reduced to whether it shows sub-minute detail;
/// `None` exactly on a format chrono rejects. The parse depends on the
/// format alone, so its outcome bears the name `strftime_items_of`.
#[verifier::external_body]
fn compile_time_format(fmt: &str) -> (r: Option<Vec<TimeTokenKind>>)
    ensures
        r is Some <==> strftime_items_of(fmt@) is Some,
        r matches Some(t) ==> strftime_items_of(fmt@) == Some(t@),
{
    let items = match StrftimeItems::new(fmt).parse_to_owned() {
        Ok(items) => items,
        Err(_) => return None,
    };
    Some(items.iter().map(|item| match item {
        Item::Numeric(Numeric::Second, _) => TimeTokenKind::Second,
        Item::Numeric(Numeric::Nanosecond, _) => TimeTokenKind::Nanosecond,
        Item::Numeric(Numeric::Timestamp, _) => TimeTokenKind::Timestamp,
        _ => TimeTokenKind::Other,
    }).collect())
}

/// Relies on chrono's `Locale::try_from`: whether the name denotes a
/// known locale, a fixed table, so the answer bears the name
/// `locale_is_known`.
#[verifier::external_body]
fn locale_known(name: &str) -> (r: bool)
    ensures
        r == locale_is_known(name@),
{
    chrono::Locale::try_from(name).is_ok()
}

/// Shortens a network name to at most `max_chars` characters, replacing the
/// tail with an ellipsis when it does not fit.
pub fn truncate_ssid(ssid: &str, max_chars: usize) -> (r: String)
    requires
        max_chars >= 1,
    ensures
        ssid@.len() <= max_chars ==> r@ == ssid@,
        ssid@.len() > max_chars ==> r@ == ssid@.subrange(0, max_chars - 1) + "\u{2026}"@,
{
    let n = ssid.unicode_len();
    if n <= max_chars {
        ssid.to_owned()
    } else {
        let head = ssid.substring_char(0, max_chars - 1);
        let mut out = head.to_owned();
        out.append("\u{2026}");
        out
    }
}

/// What a button shows, resolved once from its declarative configuration.
///
/// Icons and time formats are kept as the plain values the painter needs;
/// decoding icon files and formatting the clock happen outside the engine.
pub enum ButtonImage {
    Text(String),
    Icon { name: String, theme: Option<String> },
    Time { format: String, tokens: Vec<TimeTokenKind>, locale: Option<String> },
    Battery { device: String, mode: BatteryIconMode },
    Volume,
    Brightness,
    Wifi,
    NiriWorkspace { idx: u8, focused: bool },
    NiriWindowTitle(String),
    Spacer,
}

/// A single unit of the function row: its content, its pending-repaint and
/// pressed flags, and the key codes it emits when activated.
pub struct Button {
    pub image: ButtonImage,
    pub changed: bool,
    pub active: bool,
    pub action: Vec<u16>,
    pub clickable: bool,
}

/// The time format string a configured alias stands for: `24hr` and `12hr`
/// name two built-in formats, anything else is taken verbatim.
pub open spec fn spec_resolve_time_format(f: Seq<char>) -> Seq<char> {
    if f == "24hr"@ {
        "%H:%M    %a %-e %b"@
    } else if f == "12hr"@ {
        "%-l:%M %p    %a %-e %b"@
    } else {
        f
    }
}

/// Expands the `24hr` / `12hr` aliases to their full format strings.
pub fn resolve_time_format<'a>(format: &'a str) -> (r: &'a str)
    ensures
        r@ == spec_resolve_time_format(format@),
{
    if str_eq(format, "24hr") {
        "%H:%M    %a %-e %b"
    } else if str_eq(format, "12hr") {
        "%-l:%M %p    %a %-e %b"
    } else {
        format
    }
}

/// True iff the button has to be repainted more often than once a minute:
/// only a clock that shows seconds or finer demands that.
pub open spec fn spec_needs_faster_refresh(b: &Button) -> bool {
    match b.image {
        ButtonImage::Time { tokens, .. } =>
            exists|i: int| 0 <= i < tokens@.len() && spec_token_sub_minute(tokens@[i]),
        _ => false,
    }
}

impl Button {
    /// A blank stretch of row; paints nothing, emits nothing.
    pub fn new_spacer() -> (r: Button)
        ensures
            r.image is Spacer,
            r.action@ == Seq::<u16>::empty(),
            !r.active,
            !r.changed,
            r.clickable,
    {
        Button {
            action: Vec::new(),
            active: false,
            changed: false,
            clickable: true,
            image: ButtonImage::Spacer,
        }
    }

    /// A button showing a fixed label.
    pub fn new_text(text: String, action: Vec<u16>) -> (r: Button)
        ensures
            r.image matches ButtonImage::Text(t) && t == text,
            r.action == action,
            !r.active,
            !r.changed,
            r.clickable,
    {
        Button {
            action,
            active: false,
            changed: false,
            clickable: true,
            image: ButtonImage::Text(text),
        }
    }

    /// A button with an arbitrary content variant; starts marked changed so
    /// it is painted on the first frame.
    pub fn new_simple(image: ButtonImage, action: Vec<u16>, clickable: bool) -> (r: Button)
        ensures
            r.image == image,
            r.action == action,
            !r.active,
            r.changed,
            r.clickable == clickable,
    {
        Button {
            action,
            active: false,
            changed: true,
            clickable,
            image,
        }
    }

    /// A button showing a named theme icon; the icon file itself is
    /// resolved and decoded by the painter.
    pub fn new_icon(name: String, theme: Option<String>, action: Vec<u16>) -> (r: Button)
        ensures
            r.image matches ButtonImage::Icon { name: n, theme: t } && n == name && t == theme,
            r.action == action,
            !r.active,
            !r.changed,
            r.clickable,
    {
        Button {
            action,
            image: ButtonImage::Icon { name, theme },
            active: false,
            changed: false,
            clickable: true,
        }
    }

    /// A battery indicator for the named power-supply device. `None` iff
    /// the display mode string is invalid, a fatal configuration error.
    pub fn new_battery(action: Vec<u16>, battery: String, battery_mode: &str) -> (r: Option<Button>)
        ensures
            r matches Some(b) ==> {
                &&& b.image matches ButtonImage::Battery { device, mode }
                    && device == battery
                    && Some(mode) == spec_parse_battery_mode(battery_mode@)
                &&& b.action == action
                &&& !b.active
                &&& !b.changed
                &&& b.clickable
            },
            r is Some <==> spec_parse_battery_mode(battery_mode@) is Some,
    {
        let mode = match parse_battery_mode(battery_mode) {
            Some(m) => m,
            None => {
                return None;
            },
        };
        Some(Button {
            action,
            active: false,
            changed: false,
            clickable: true,
            image: ButtonImage::Battery { device: battery, mode },
        })
    }

    /// A live clock. The format string (after alias expansion) is compiled
    /// by the outside strftime parser; `None` iff it is invalid, a fatal
    /// configuration error. The locale is kept only when it names one the
    /// formatter knows, so the painter can fall back to a default.
    pub fn new_time(action: Vec<u16>, format: &str, locale_str: Option<&str>) -> (r: Option<Button>)
        ensures
            spec_time_outcome(r, format@,
                (match locale_str { Some(l) => Some(l@), None => None::<Seq<char>> }),
                action@),
            r matches Some(b) ==> b.action == action,
    {
        let format_str = resolve_time_format(format);
        let tokens = match compile_time_format(format_str) {
            Some(t) => t,
            None => {
                return None;
            },
        };
        let locale = match locale_str {
            Some(l) => {
                if locale_known(l) {
                    Some(l.to_owned())
                } else {
                    None
                }
            },
            None => None,
        };
        Some(Button {
            action,
            active: false,
            changed: false,
            clickable: false,
            image: ButtonImage::Time { format: format_str.to_owned(), tokens, locale },
        })
    }

    /// An indicator for one compositor workspace; pressing it focuses that
    /// workspace rather than emitting keys.
    pub fn new_niri_workspace(idx: u8, focused: bool, id: u64) -> (r: Button)
        ensures
            r.image matches ButtonImage::NiriWorkspace { idx: i, focused: f } && i == idx && f == focused,
            r.action@ == Seq::<u16>::empty(),
            !r.active,
            r.changed,
            r.clickable,
    {
        let _ = id;
        Button {
            action: Vec::new(),
            active: false,
            changed: true,
            clickable: true,
            image: ButtonImage::NiriWorkspace { idx, focused },
        }
    }

    /// A read-only label showing the focused window's title.
    pub fn new_niri_window_title(title: String) -> (r: Button)
        ensures
            r.image matches ButtonImage::NiriWindowTitle(t) && t == title,
            r.action@ == Seq::<u16>::empty(),
            !r.active,
            r.changed,
            !r.clickable,
    {
        Button {
            action: Vec::new(),
            active: false,
            changed: true,
            clickable: false,
            image: ButtonImage::NiriWindowTitle(title),
        }
    }

    /// Whether this button must be repainted on sub-minute clock ticks.
    pub fn needs_faster_refresh(&self) -> (r: bool)
        ensures
            r == spec_needs_faster_refresh(self),
    {
        match &self.image {
            ButtonImage::Time { tokens, .. } => {
                let mut i: usize = 0;
                while i < tokens.len()
                    invariant
                        i <= tokens@.len(),
                        forall|j: int| 0 <= j < i ==> !spec_token_sub_minute(tokens@[j]),
                        self.image matches ButtonImage::Time { tokens: tk, .. } && tk == tokens,
                    decreases tokens@.len() - i,
                {
                    let t = tokens[i];
                    if t == TimeTokenKind::Second || t == TimeTokenKind::Nanosecond
                        || t == TimeTokenKind::Timestamp {
                        return true;
                    }
                    i += 1;
                }
                false
            },
            _ => false,
        }
    }

    /// Records a press or release. Returns whether the button's key codes
    /// must now be toggled: only a clickable button whose pressed state
    /// actually flips emits keys, and it is then marked for repaint.
    pub fn set_active(&mut self, active: bool) -> (emit: bool)
        ensures
            !old(self).clickable ==> *final(self) == *old(self) && !emit,
            old(self).clickable && old(self).active == active ==> *final(self) == *old(self) && !emit,
            old(self).clickable && old(self).active != active ==> {
                &&& emit
                &&& final(self).active == active
                &&& final(self).changed
                &&& final(self).image == old(self).image
                &&& final(self).action == old(self).action
                &&& final(self).clickable == old(self).clickable
            },
    {
        if !self.clickable {
            return false;
        }
        if self.active != active {
            self.active = active;
            self.changed = true;
            return true;
        }
        false
    }
}

/// Copies an optional string out of a configuration entry.
fn clone_opt_string(o: &Option<String>) -> (r: Option<String>)
    ensures
        r == *o,
{
    match o {
        Some(s) => Some(s.clone()),
        None => None,
    }
}

/// The bookkeeping fields every freshly built button shares: not pressed,
/// the given action, and the given repaint and clickability flags.
pub open spec fn spec_fresh_button(b: Button, action: Seq<u16>, changed: bool, clickable: bool) -> bool {
    &&& b.action@ == action
    &&& !b.active
    &&& b.changed == changed
    &&& b.clickable == clickable
}

/// The built button is a fixed label with this text.
pub open spec fn spec_text_outcome(r: Option<Button>, text: String, action: Seq<u16>) -> bool {
    r matches Some(b) && (b.image matches ButtonImage::Text(s) && s == text)
        && spec_fresh_button(b, action, false, true)
}

/// The built button is a named theme icon.
pub open spec fn spec_icon_outcome(r: Option<Button>, name: String, theme: Option<String>, action: Seq<u16>) -> bool {
    r matches Some(b) && (b.image matches ButtonImage::Icon { name: n, theme: t } && n == name && t == theme)
        && spec_fresh_button(b, action, false, true)
}

/// The locale a clock keeps: the configured one when the formatter knows
/// it, none otherwise, so the painter can fall back to a default.
pub open spec fn spec_kept_locale(l: Option<Seq<char>>) -> Option<Seq<char>> {
    match l {
        Some(s) => if locale_is_known(s) { Some(s) } else { None },
        None => None,
    }
}

/// A clock is built exactly when the resolved format compiles; it then
/// holds that format, its compiled elements, and the kept locale.
pub open spec fn spec_time_outcome(r: Option<Button>, format: Seq<char>, locale: Option<Seq<char>>, action: Seq<u16>) -> bool {
    let resolved = spec_resolve_time_format(format);
    &&& (r is Some <==> strftime_items_of(resolved) is Some)
    &&& r matches Some(b) ==> (b.image matches ButtonImage::Time { format: f, tokens, locale: kept }
        && f@ == resolved
        && Some(tokens@) == strftime_items_of(resolved)
        && (match kept { Some(s) => Some(s@), None => None::<Seq<char>> }) == spec_kept_locale(locale))
        && spec_fresh_button(b, action, false, false)
}

/// With a power-supply device at hand, a battery entry builds a battery
/// indicator exactly when its display mode is valid; without one it
/// degrades to a fixed label.
pub open spec fn spec_battery_outcome(r: Option<Button>, mode_str: Seq<char>, device: Option<&str>, action: Seq<u16>) -> bool {
    match device {
        Some(dev) => {
            &&& r is Some <==> spec_parse_battery_mode(mode_str) is Some
            &&& (r matches Some(b) ==> (b.image matches ButtonImage::Battery { device: d, mode }
                    && d@ == dev@ && Some(mode) == spec_parse_battery_mode(mode_str))
                && spec_fresh_button(b, action, false, true))
        },
        None => r matches Some(b) && (b.image matches ButtonImage::Text(s) && s@ == "Battery N/A"@)
            && spec_fresh_button(b, action, false, true),
    }
}

/// Which live indicator a configuration entry asks for, if any, in
/// priority order: volume, then brightness, then wifi.
pub open spec fn spec_live_choice(cfg: &crate::config::ButtonConfig) -> Option<ButtonImage> {
    if cfg.volume == Some(true) {
        Some(ButtonImage::Volume)
    } else if cfg.brightness == Some(true) {
        Some(ButtonImage::Brightness)
    } else if cfg.wifi == Some(true) {
        Some(ButtonImage::Wifi)
    } else {
        None
    }
}

/// The built button is the given live indicator.
pub open spec fn spec_live_outcome(r: Option<Button>, image: ButtonImage, action: Seq<u16>) -> bool {
    r matches Some(b) && b.image == image && spec_fresh_button(b, action, true, false)
}

/// The built button is a spacer.
pub open spec fn spec_spacer_outcome(r: Option<Button>) -> bool {
    r matches Some(b) && b.image is Spacer && spec_fresh_button(b, Seq::<u16>::empty(), false, true)
}

/// What building a button from one configuration entry yields, by the
/// fixed priority order of the entry's fields.
pub open spec fn spec_button_outcome(cfg: &crate::config::ButtonConfig, device: Option<&str>, r: Option<Button>) -> bool {
    &&& (cfg.text matches Some(t) ==> spec_text_outcome(r, t, cfg.action@))
    &&& cfg.text is None ==> (cfg.icon matches Some(ic) ==>
        spec_icon_outcome(r, ic, cfg.theme, cfg.action@))
    &&& cfg.text is None && cfg.icon is None ==> (cfg.time matches Some(t) ==>
        spec_time_outcome(r, t@,
            (match cfg.locale { Some(l) => Some(l@), None => None::<Seq<char>> }),
            cfg.action@))
    &&& cfg.text is None && cfg.icon is None && cfg.time is None ==>
        (cfg.battery matches Some(m) ==>
            spec_battery_outcome(r, m@, device, cfg.action@))
    &&& cfg.text is None && cfg.icon is None && cfg.time is None && cfg.battery is None ==> {
        &&& (spec_live_choice(cfg) matches Some(img) ==>
            spec_live_outcome(r, img, cfg.action@))
        &&& spec_live_choice(cfg) is None ==> spec_spacer_outcome(r)
    }
}

impl Button {
    /// Builds the button a configuration entry describes, resolving the
    /// content variant in fixed priority order: text, icon, time, battery,
    /// volume, brightness, wifi, and lastly a spacer.
    ///
    /// `battery_device` is the power-supply device the caller found, if
    /// any; a battery entry without one degrades to a fixed label. `None`
    /// only on a fatal configuration error: an invalid battery display
    /// mode, or a time format the outside parser rejects.
    pub fn with_config(cfg: &crate::config::ButtonConfig, battery_device: Option<&str>) -> (r: Option<Button>)
        ensures
            spec_button_outcome(cfg, battery_device, r),
    {
        let action = crate::copy_key_codes(&cfg.action);
        if let Some(text) = &cfg.text {
            Some(Button::new_text(text.clone(), action))
        } else if let Some(icon) = &cfg.icon {
            Some(Button::new_icon(icon.clone(), clone_opt_string(&cfg.theme), action))
        } else if let Some(time) = &cfg.time {
            let locale = match &cfg.locale {
                Some(l) => Some(l.as_str()),
                None => None,
            };
            Button::new_time(action, time.as_str(), locale)
        } else if let Some(mode) = &cfg.battery {
            match battery_device {
                Some(dev) => Button::new_battery(action, dev.to_owned(), mode.as_str()),
                None => Some(Button::new_text("Battery N/A".to_owned(), action)),
            }
        } else if matches!(cfg.volume, Some(true)) {
            Some(Button::new_simple(ButtonImage::Volume, action, false))
        } else if matches!(cfg.brightness, Some(true)) {
            Some(Button::new_simple(ButtonImage::Brightness, action, false))
        } else if matches!(cfg.wifi, Some(true)) {
            Some(Button::new_simple(ButtonImage::Wifi, action, false))
        } else {
            Some(Button::new_spacer())
        }
    }
}

/// The theme color behind a button: charge state tints a battery button,
/// focus tints a workspace button, every other button follows its pressed
/// state.
pub open spec fn spec_background_color_role(b: &Button, active: bool, battery: BatteryState) -> ColorRole {
    let base = if active { ColorRole::ButtonActive } else { ColorRole::ButtonInactive };
    match b.image {
        ButtonImage::Battery { .. } => {
            match battery {
                BatteryState::NotCharging => base,
                BatteryState::Charging => ColorRole::Success,
                BatteryState::Low => ColorRole::Warning,
            }
        },
        ButtonImage::NiriWorkspace { focused, .. } => if focused { ColorRole::Accent } else { base },
        _ => base,
    }
}

impl Button {
    /// The theme color this button's background is painted with; `battery`
    /// is the current charge state, read by the caller.
    pub fn background_color_role(&self, active: bool, battery: BatteryState) -> (r: ColorRole)
        ensures
            r == spec_background_color_role(self, active, battery),
    {
        let base = if active { ColorRole::ButtonActive } else { ColorRole::ButtonInactive };
        match &self.image {
            ButtonImage::Battery { .. } => {
                match battery {
                    BatteryState::NotCharging => base,
                    BatteryState::Charging => ColorRole::Success,
                    BatteryState::Low => ColorRole::Warning,
                }
            },
            ButtonImage::NiriWorkspace { focused, .. } => if *focused { ColorRole::Accent } else { base },
            _ => base,
        }
    }
}

} // verus!
