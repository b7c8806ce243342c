//! The text-edit popups of the terminal UI: per-instance Java and game
//! arguments, window size and memory, and the global Java arguments,
//! window size and refresh interval. Opening a popup takes what was read
//! from the config; applying one checks and parses the text and hands back
//! what is to be saved; finishing reports how saving went.
use vstd::prelude::*;
use crate::app_state::{App, ArgsEditKind, EditPopups, InstancePage, SettingsTab};
use crate::args::{format_args_for_edit, format_args_spec, parse_args_spec, parse_shell_like_args, views};
use crate::text::{
    chars_of, concat, concat3, decimal, parse_unsigned, parse_unsigned_max, push_decimal, push_str,
    string_from_chars, trim, trim_seq,
};

verus! {

/// Why reading or writing an instance's config failed.
pub enum ConfigError {
    NoLauncherDir(String),
    Read(String),
    Parse(String),
    Serialize(String),
    Write(String),
}

/// The status line for a config error.
pub open spec fn config_error_message(e: ConfigError) -> Seq<char> {
    match e {
        ConfigError::NoLauncherDir(m) => "❌ Failed to get launcher directory: "@ + m@,
        ConfigError::Read(m) => "❌ Failed to read config: "@ + m@,
        ConfigError::Parse(m) => "❌ Failed to parse config: "@ + m@,
        ConfigError::Serialize(m) => "❌ Failed to serialize config: "@ + m@,
        ConfigError::Write(m) => "❌ Failed to write config: "@ + m@,
    }
}

/// The status line for a config error (see `config_error_message`).
pub fn config_error_text(e: &ConfigError) -> (r: String)
    ensures
        r@ == config_error_message(*e),
{
    match e {
        ConfigError::NoLauncherDir(m) => concat("❌ Failed to get launcher directory: ", m.as_str()),
        ConfigError::Read(m) => concat("❌ Failed to read config: ", m.as_str()),
        ConfigError::Parse(m) => concat("❌ Failed to parse config: ", m.as_str()),
        ConfigError::Serialize(m) => concat("❌ Failed to serialize config: ", m.as_str()),
        ConfigError::Write(m) => concat("❌ Failed to write config: ", m.as_str()),
    }
}

/// The value of `s` as an unsigned number no greater than `max`.
pub open spec fn parse_bounded(s: Seq<char>, max: nat) -> Option<nat> {
    match parse_unsigned(s) {
        Some(n) => if n <= max {
            Some(n)
        } else {
            None
        },
        None => None,
    }
}

/// The name of the instance whose settings page is open, if the page
/// points into the list.
pub open spec fn settings_instance(a: App) -> Option<Seq<char>> {
    match a.instance_page.instance_settings_instance {
        Some(i) => if i < a.instance_list.instances@.len() {
            Some(a.instance_list.instances@[i as int].name@)
        } else {
            None
        },
        None => None,
    }
}

/// `App` with the text popup opened on `text` for `kind`, and the status
/// line `msg`.
pub open spec fn args_popup_opened(o: App, n: App, text: Seq<char>, kind: ArgsEditKind, msg: Seq<char>) -> bool {
    &&& n == (App {
        popups: EditPopups {
            is_editing_args: true,
            args_edit_input: n.popups.args_edit_input,
            args_edit_kind: kind,
            ..o.popups
        },
        status_message: n.status_message,
        ..o
    })
    &&& n.popups.args_edit_input@ == text
    &&& n.status_message@ == msg
}

/// `App` with only the status line replaced by `msg`.
pub open spec fn status_only(o: App, n: App, msg: Seq<char>) -> bool {
    n == (App { status_message: n.status_message, ..o }) && n.status_message@ == msg
}

/// The text `w,h` of a window size, empty unless both are known.
pub open spec fn window_size_text(w: Option<u32>, h: Option<u32>) -> Seq<char> {
    match (w, h) {
        (Some(a), Some(b)) => decimal(a as nat) + ","@ + decimal(b as nat),
        _ => Seq::empty(),
    }
}

fn window_size_string(w: Option<u32>, h: Option<u32>) -> (r: String)
    ensures
        r@ == window_size_text(w, h),
{
    match (w, h) {
        (Some(a), Some(b)) => {
            let mut s = String::new();
            push_decimal(&mut s, a as u64);
            push_str(&mut s, ",");
            push_decimal(&mut s, b as u64);
            s
        },
        _ => String::new(),
    }
}

/// How the text of the memory popup reads: empty, a number of megabytes
/// (plain or with an `m`/`mb` suffix), a number of gigabytes (with a
/// `g`/`gb` suffix; the number's text, which may have a fraction), or
/// neither.
pub enum MemoryInput {
    Empty,
    Megabytes(u64),
    Gigabytes(String),
    Invalid,
}

/// ASCII lowercase of every character (`str::to_ascii_lowercase`).
pub open spec fn ascii_lowercase(s: Seq<char>) -> Seq<char> {
    s.map_values(|c: char| crate::text::ascii_lower(c))
}

/// `s` without `suffix` when it ends with it.
pub open spec fn without_suffix(s: Seq<char>, suffix: Seq<char>) -> Option<Seq<char>> {
    if suffix.is_suffix_of(s) {
        Some(s.take(s.len() - suffix.len()))
    } else {
        None
    }
}

/// How the memory popup text reads, in mathematical terms.
pub enum MemoryReading {
    Empty,
    Megabytes(nat),
    Gigabytes(Seq<char>),
    Invalid,
}

/// The megabytes a number text stands for, if it is one that fits a
/// `usize`.
pub open spec fn megabytes_of(s: Seq<char>) -> MemoryReading {
    match parse_bounded(s, usize::MAX as nat) {
        Some(n) => MemoryReading::Megabytes(n),
        None => MemoryReading::Invalid,
    }
}

/// How the memory popup text `s` reads: after trimming and ASCII
/// lowercasing, a `gb` or `g` suffix marks gigabytes and an `mb` or `m`
/// suffix megabytes; text without a suffix is megabytes.
pub open spec fn memory_reading(s: Seq<char>) -> MemoryReading {
    let t = trim_seq(s);
    let lower = ascii_lowercase(t);
    if t.len() == 0 {
        MemoryReading::Empty
    } else if without_suffix(lower, "gb"@) is Some {
        MemoryReading::Gigabytes(trim_seq(without_suffix(lower, "gb"@).unwrap()))
    } else if without_suffix(lower, "g"@) is Some {
        MemoryReading::Gigabytes(trim_seq(without_suffix(lower, "g"@).unwrap()))
    } else if without_suffix(lower, "mb"@) is Some {
        megabytes_of(trim_seq(without_suffix(lower, "mb"@).unwrap()))
    } else if without_suffix(lower, "m"@) is Some {
        megabytes_of(trim_seq(without_suffix(lower, "m"@).unwrap()))
    } else {
        megabytes_of(lower)
    }
}

/// Whether the executable reading `r` is the reading `m`.
pub open spec fn reads_as(r: MemoryInput, m: MemoryReading) -> bool {
    match m {
        MemoryReading::Empty => r is Empty,
        MemoryReading::Megabytes(n) => r == MemoryInput::Megabytes(n as u64),
        MemoryReading::Gigabytes(g) => r matches MemoryInput::Gigabytes(x) && x@ == g,
        MemoryReading::Invalid => r is Invalid,
    }
}

/// The megabytes the memory popup text gives: the caller's conversion
/// `gigabytes` of a number of gigabytes, or the number of megabytes.
pub open spec fn memory_megabytes(input: Seq<char>, gigabytes: Option<usize>) -> Option<nat> {
    match memory_reading(input) {
        MemoryReading::Megabytes(n) => Some(n),
        MemoryReading::Gigabytes(_) => match gigabytes {
            Some(m) => Some(m as nat),
            None => None,
        },
        _ => None,
    }
}

fn ascii_lower_chars(v: &Vec<char>) -> (r: Vec<char>)
    ensures
        r@ == ascii_lowercase(v@),
{
    let mut r: Vec<char> = Vec::new();
    let mut i: usize = 0;
    while i < v.len()
        invariant
            i <= v@.len(),
            r@ == ascii_lowercase(v@.take(i as int)),
        decreases v.len() - i,
    {
        let c = v[i];
        let l = if 'A' <= c && c <= 'Z' {
            char_from_u32_ascii((c as u32) + 32)
        } else {
            c
        };
        r.push(l);
        assert(ascii_lowercase(v@.take(i + 1)) =~= ascii_lowercase(v@.take(i as int)).push(l));
        i += 1;
    }
    assert(v@.take(v@.len() as int) =~= v@);
    r
}

fn char_from_u32_ascii(n: u32) -> (c: char)
    requires
        'a' as u32 <= n <= 'z' as u32,
    ensures
        c == n as char,
{
    let b: u8 = n as u8;
    b as char
}

/// `v` without `suffix` when it ends with it (see `without_suffix`).
fn strip_suffix_chars(v: &Vec<char>, suffix: &str) -> (r: Option<Vec<char>>)
    ensures
        without_suffix(v@, suffix@) is Some <==> r is Some,
        r matches Some(w) ==> w@ == without_suffix(v@, suffix@).unwrap(),
{
    let p = chars_of(suffix);
    if p.len() > v.len() {
        return None;
    }
    let off = v.len() - p.len();
    let mut k: usize = 0;
    while k < p.len()
        invariant
            p@ == suffix@,
            off + p@.len() == v@.len(),
            v@.len() <= usize::MAX,
            k <= p@.len(),
            forall|m: int| 0 <= m < k ==> v@[off + m] == p@[m],
        decreases p.len() - k,
    {
        if v[off + k] != p[k] {
            assert(!suffix@.is_suffix_of(v@));
            return None;
        }
        k += 1;
    }
    assert(suffix@.is_suffix_of(v@));
    let mut w: Vec<char> = Vec::new();
    let mut i: usize = 0;
    while i < off
        invariant
            off <= v@.len(),
            i <= off,
            w@ == v@.take(i as int),
        decreases off - i,
    {
        w.push(v[i]);
        assert(v@.take(i as int).push(v@[i as int]) =~= v@.take(i + 1));
        i += 1;
    }
    Some(w)
}

fn megabytes_text(s: &Vec<char>) -> (r: MemoryInput)
    ensures
        reads_as(r, megabytes_of(s@)),
{
    let text = string_from_chars(s.as_slice());
    match parse_unsigned_max(text.as_str(), usize::MAX as u64) {
        Some(n) => MemoryInput::Megabytes(n),
        None => MemoryInput::Invalid,
    }
}

fn trimmed(v: &Vec<char>) -> (r: Vec<char>)
    ensures
        r@ == trim_seq(v@),
{
    crate::text::trim_chars(v.as_slice())
}

/// How the memory popup text reads (see `memory_reading`).
pub fn parse_memory_input(s: &str) -> (r: MemoryInput)
    ensures
        reads_as(r, memory_reading(s@)),
{
    let t = crate::text::trim_chars(chars_of(s).as_slice());
    if t.len() == 0 {
        return MemoryInput::Empty;
    }
    let lower = ascii_lower_chars(&t);
    if let Some(g) = strip_suffix_chars(&lower, "gb") {
        return MemoryInput::Gigabytes(string_from_chars(trimmed(&g).as_slice()));
    }
    if let Some(g) = strip_suffix_chars(&lower, "g") {
        return MemoryInput::Gigabytes(string_from_chars(trimmed(&g).as_slice()));
    }
    if let Some(m) = strip_suffix_chars(&lower, "mb") {
        return megabytes_text(&trimmed(&m));
    }
    if let Some(m) = strip_suffix_chars(&lower, "m") {
        return megabytes_text(&trimmed(&m));
    }
    megabytes_text(&lower)
}

/// The smallest and largest memory the popup accepts, in megabytes.
pub const MEMORY_MIN_MB: usize = 256;

pub const MEMORY_MAX_MB: usize = 16384;

/// `mb` brought into the accepted range.
pub open spec fn clamp_memory(mb: nat) -> usize {
    if mb < MEMORY_MIN_MB {
        MEMORY_MIN_MB
    } else if mb > MEMORY_MAX_MB {
        MEMORY_MAX_MB
    } else {
        mb as usize
    }
}

/// Memory to be written into an instance's config.
pub struct MemorySave {
    pub instance_name: String,
    pub mb: usize,
}

/// Arguments to be written into an instance's config.
pub struct ArgsSave {
    pub instance_name: String,
    pub kind: ArgsEditKind,
    pub args: Vec<String>,
}

/// A change of the global window size.
pub enum WindowSizeUpdate {
    /// Clear both values.
    Clear,
    /// Set both values (a part that does not read as a number clears it).
    Resize(Option<u32>, Option<u32>),
    /// Keep the values (the text has no separator).
    Keep,
}

/// The global setting a popup edits, for the message after saving.
#[derive(Debug, Clone, Copy, PartialEq, Eq, Structural)]
pub enum GlobalSetting {
    RefreshInterval,
    JavaArgs,
    WindowSize,
}

/// Whether `c` separates the width from the height.
pub open spec fn is_size_separator(c: char) -> bool {
    c == ',' || c == 'x' || c == 'X'
}

/// The position of the first separator in `s`, if any.
pub open spec fn first_separator(s: Seq<char>) -> Option<int> {
    if exists|i: int| 0 <= i < s.len() && is_size_separator(#[trigger] s[i]) {
        Some(
            choose|i: int|
                0 <= i < s.len() && is_size_separator(s[i]) && forall|j: int|
                    0 <= j < i ==> !is_size_separator(#[trigger] s[j]),
        )
    } else {
        None
    }
}

/// A `u32` read from a part of the size text (surrounding white space
/// allowed).
pub open spec fn size_part(s: Seq<char>) -> Option<u32> {
    match parse_bounded(trim_seq(s), u32::MAX as nat) {
        Some(n) => Some(n as u32),
        None => None,
    }
}

/// What the global window size text asks for: clearing for empty text;
/// else the first two parts split at `,`, `x` or `X`, when there are two.
pub open spec fn window_size_update_of(s: Seq<char>, r: WindowSizeUpdate) -> bool {
    let t = trim_seq(s);
    if t.len() == 0 {
        r is Clear
    } else {
        match first_separator(t) {
            None => r is Keep,
            Some(i) => {
                let rest = t.skip(i + 1);
                let second = match first_separator(rest) {
                    Some(j) => rest.take(j),
                    None => rest,
                };
                r == WindowSizeUpdate::Resize(size_part(t.take(i)), size_part(second))
            },
        }
    }
}

/// The position of the first separator from `start` on, or the length.
fn find_separator(v: &Vec<char>, start: usize) -> (r: usize)
    requires
        start <= v@.len(),
    ensures
        start <= r <= v@.len(),
        forall|j: int| start <= j < r ==> !is_size_separator(#[trigger] v@[j]),
        r < v@.len() ==> is_size_separator(v@[r as int]),
{
    let mut i = start;
    while i < v.len()
        invariant
            start <= i <= v@.len(),
            forall|j: int| start <= j < i ==> !is_size_separator(#[trigger] v@[j]),
        decreases v.len() - i,
    {
        if v[i] == ',' || v[i] == 'x' || v[i] == 'X' {
            return i;
        }
        i += 1;
    }
    i
}

proof fn lemma_first_separator(s: Seq<char>, r: int)
    requires
        0 <= r <= s.len(),
        forall|j: int| 0 <= j < r ==> !is_size_separator(#[trigger] s[j]),
        r < s.len() ==> is_size_separator(s[r]),
    ensures
        r < s.len() ==> first_separator(s) == Some(r),
        r == s.len() ==> first_separator(s) is None,
{
    if r < s.len() {
        assert(is_size_separator(s[r]));
        let k = choose|i: int|
            0 <= i < s.len() && is_size_separator(s[i]) && forall|j: int|
                0 <= j < i ==> !is_size_separator(#[trigger] s[j]);
        if k < r {
            assert(!is_size_separator(s[k]));
        }
        if k > r {
            assert(!is_size_separator(s[r]));
        }
    }
}

fn size_part_exec(v: &Vec<char>, from: usize, to: usize) -> (r: Option<u32>)
    requires
        from <= to <= v@.len(),
    ensures
        r == size_part(v@.subrange(from as int, to as int)),
{
    let mut part: Vec<char> = Vec::new();
    let mut i = from;
    while i < to
        invariant
            from <= i <= to,
            to <= v@.len(),
            part@ == v@.subrange(from as int, i as int),
        decreases to - i,
    {
        part.push(v[i]);
        assert(v@.subrange(from as int, i as int).push(v@[i as int]) =~= v@.subrange(
            from as int,
            i + 1,
        ));
        i += 1;
    }
    let t = string_from_chars(crate::text::trim_chars(part.as_slice()).as_slice());
    match parse_unsigned_max(t.as_str(), u32::MAX as u64) {
        Some(n) => Some(n as u32),
        None => None,
    }
}

/// What the global window size text asks for (see
/// `window_size_update_of`).
pub fn parse_window_size(s: &str) -> (r: WindowSizeUpdate)
    ensures
        window_size_update_of(s@, r),
{
    let t = crate::text::trim_chars(chars_of(s).as_slice());
    if t.len() == 0 {
        return WindowSizeUpdate::Clear;
    }
    let i = find_separator(&t, 0);
    proof {
        assert(forall|j: int| 0 <= j < i ==> !is_size_separator(#[trigger] t@[j]));
        lemma_first_separator(t@, i as int);
    }
    if i == t.len() {
        return WindowSizeUpdate::Keep;
    }
    let j = find_separator(&t, i + 1);
    proof {
        let rest = t@.skip(i + 1);
        assert forall|k: int| 0 <= k < j - (i + 1) implies !is_size_separator(#[trigger] rest[k]) by {
            assert(rest[k] == t@[i + 1 + k]);
        }
        if j < t.len() {
            assert(rest[j - (i + 1)] == t@[j as int]);
        }
        lemma_first_separator(rest, j - (i + 1));
        assert(t@.take(i as int) =~= t@.subrange(0, i as int));
        if j < t.len() {
            assert(rest.take(j - (i + 1)) =~= t@.subrange(i + 1, j as int));
        } else {
            assert(rest =~= t@.subrange(i + 1, j as int));
        }
    }
    let w = size_part_exec(&t, 0, i);
    let h = size_part_exec(&t, i + 1, j);
    WindowSizeUpdate::Resize(w, h)
}

/// The refresh interval the popup text asks for: none for empty text, a
/// number of milliseconds (at least 50) for a number, and an error
/// otherwise.
pub open spec fn refresh_interval_of(s: Seq<char>) -> Result<Option<u64>, ()> {
    let t = trim_seq(s);
    if t.len() == 0 {
        Ok(None)
    } else {
        match parse_bounded(t, u64::MAX as nat) {
            Some(n) => Ok(Some(if n < 50 {
                50u64
            } else {
                n as u64
            })),
            None => Err(()),
        }
    }
}

/// The status line after saving a global setting.
pub open spec fn saved_message(g: GlobalSetting) -> Seq<char> {
    match g {
        GlobalSetting::RefreshInterval => "✅ Saved TUI refresh interval"@,
        GlobalSetting::JavaArgs => "✅ Saved global Java arguments"@,
        GlobalSetting::WindowSize => "✅ Saved global window size"@,
    }
}

/// The status line after saving the arguments of an instance.
pub open spec fn args_saved_message(k: ArgsEditKind) -> Seq<char> {
    match k {
        ArgsEditKind::Java => "✅ Saved Java arguments"@,
        ArgsEditKind::Game => "✅ Saved Game arguments"@,
        _ => Seq::empty(),
    }
}


/// What Enter does on the Java and Launch sub-pages of the settings tab.
pub enum PageAction {
    Nothing,
    /// Switch the Java arguments mode of the instance to the next one.
    CycleJavaArgsMode(String),
    /// Open the Java arguments popup (after loading them).
    EditJavaArgs,
    /// Open the memory popup (after loading the memory setting).
    EditMemory,
    /// Open the game arguments popup (after loading them).
    EditGameArgs,
    /// Open the window size popup (after loading it).
    EditWindowSize,
}

/// The memory value loaded for the popup: the configured one, or 2048 when
/// reading the config failed.
pub open spec fn loaded_mb(loaded: Result<usize, String>) -> usize {
    match loaded {
        Ok(mb) => mb,
        Err(_) => 2048,
    }
}

impl App {
    /// The name of the instance whose settings page is open (see
    /// `settings_instance`).
    pub fn settings_instance_name(&self) -> (r: Option<String>)
        ensures
            r matches Some(s) ==> settings_instance(*self) == Some(s@),
            r is None ==> settings_instance(*self) is None,
    {
        match self.instance_page.instance_settings_instance {
            Some(i) => if i < self.instance_list.instances.len() {
                Some(self.instance_list.instances[i].name.clone())
            } else {
                None
            },
            None => None,
        }
    }

    /// Opens the popup for the Java (`java`) or game arguments of the
    /// instance, on the arguments loaded from its config (empty when they
    /// could not be read).
    pub fn open_args_edit(&mut self, java: bool, loaded: &Vec<String>)
        ensures
            settings_instance(*old(self)) is None ==> *final(self) == *old(self),
            settings_instance(*old(self)) is Some ==> args_popup_opened(
                *old(self),
                *final(self),
                format_args_spec(views(loaded@)),
                if java {
                    ArgsEditKind::Java
                } else {
                    ArgsEditKind::Game
                },
                if java {
                    "Editing Java arguments"@
                } else {
                    "Editing Game arguments"@
                },
            ),
    {
        if self.settings_instance_name().is_none() {
            return ;
        }
        self.popups.is_editing_args = true;
        self.popups.args_edit_input = format_args_for_edit(loaded);
        self.popups.args_edit_kind = if java {
            ArgsEditKind::Java
        } else {
            ArgsEditKind::Game
        };
        self.status_message = if java {
            "Editing Java arguments".to_owned()
        } else {
            "Editing Game arguments".to_owned()
        };
    }

    /// Opens the popup for the window size of the instance, on `w,h` when
    /// both are configured.
    pub fn open_window_size_edit(&mut self, w: Option<u32>, h: Option<u32>)
        ensures
            settings_instance(*old(self)) is None ==> *final(self) == *old(self),
            settings_instance(*old(self)) is Some ==> args_popup_opened(
                *old(self),
                *final(self),
                window_size_text(w, h),
                ArgsEditKind::WindowSize,
                "Editing window size (WIDTH,HEIGHT; empty to reset)"@,
            ),
    {
        if self.settings_instance_name().is_none() {
            return ;
        }
        self.popups.is_editing_args = true;
        self.popups.args_edit_input = window_size_string(w, h);
        self.popups.args_edit_kind = ArgsEditKind::WindowSize;
        self.status_message = "Editing window size (WIDTH,HEIGHT; empty to reset)".to_owned();
    }

    /// Loads the memory setting into the popup buffer without opening it.
    pub fn preload_memory_summary(&mut self, loaded: Result<usize, String>)
        ensures
            settings_instance(*old(self)) is None ==> *final(self) == *old(self),
            settings_instance(*old(self)) is Some ==> {
                &&& *final(self) == (App {
                    popups: EditPopups {
                        memory_edit_mb: loaded_mb(loaded),
                        memory_edit_input: final(self).popups.memory_edit_input,
                        ..old(self).popups
                    },
                    ..*old(self)
                })
                &&& final(self).popups.memory_edit_input@ == decimal(loaded_mb(loaded) as nat)
            },
    {
        if self.settings_instance_name().is_none() {
            return ;
        }
        let mb = match loaded {
            Ok(mb) => mb,
            Err(_) => 2048,
        };
        self.popups.memory_edit_mb = mb;
        let mut t = String::new();
        push_decimal(&mut t, mb as u64);
        self.popups.memory_edit_input = t;
    }

    /// Opens the memory popup on the configured value, or on 2048 (saying
    /// why) when the config could not be read.
    pub fn open_memory_edit(&mut self, loaded: Result<usize, String>)
        ensures
            old(self).instance_page.instance_settings_instance is None ==> status_only(
                *old(self),
                *final(self),
                "No instance selected"@,
            ),
            old(self).instance_page.instance_settings_instance is Some && settings_instance(
                *old(self),
            ) is None ==> *final(self) == *old(self),
            settings_instance(*old(self)) is Some ==> {
                let mb = loaded_mb(loaded);
                &&& *final(self) == (App {
                    popups: EditPopups {
                        is_editing_memory: true,
                        memory_edit_mb: mb,
                        memory_edit_input: final(self).popups.memory_edit_input,
                        ..old(self).popups
                    },
                    status_message: final(self).status_message,
                    ..*old(self)
                })
                &&& final(self).popups.memory_edit_input@ == decimal(mb as nat)
                &&& final(self).status_message@ == match loaded {
                    Ok(_) => "Editing memory: "@ + decimal(mb as nat) + " MB"@,
                    Err(e) => "Editing memory (loaded default due to "@ + e@ + "): "@ + decimal(
                        mb as nat,
                    ) + " MB"@,
                }
            },
    {
        if self.instance_page.instance_settings_instance.is_none() {
            self.status_message = "No instance selected".to_owned();
            return ;
        }
        if self.settings_instance_name().is_none() {
            return ;
        }
        let (mb, err) = match loaded {
            Ok(mb) => (mb, None),
            Err(e) => (2048, Some(e)),
        };
        self.popups.memory_edit_mb = mb;
        let mut t = String::new();
        push_decimal(&mut t, mb as u64);
        self.popups.memory_edit_input = t;
        self.popups.is_editing_memory = true;
        let mut msg = match err {
            Some(e) => concat3("Editing memory (loaded default due to ", e.as_str(), "): "),
            None => "Editing memory: ".to_owned(),
        };
        push_decimal(&mut msg, mb as u64);
        push_str(&mut msg, " MB");
        self.status_message = msg;
    }

    /// Enter in the memory popup: reads the text (`gigabytes` is the value,
    /// in megabytes, that the caller made of a number of gigabytes, when the
    /// text is one) and asks for the value, brought into 256..=16384 MB, to
    /// be saved; reports text that is not a memory value.
    pub fn apply_memory_edit(&mut self, gigabytes: Option<usize>) -> (r: Option<MemorySave>)
        ensures
            !old(self).popups.is_editing_memory || settings_instance(*old(self)) is None ==> {
                &&& r is None
                &&& *final(self) == *old(self)
            },
            old(self).popups.is_editing_memory && settings_instance(*old(self)) is Some ==> {
                let mb = memory_megabytes(old(self).popups.memory_edit_input@, gigabytes);
                match mb {
                    None => r is None && status_only(
                        *old(self),
                        *final(self),
                        "❌ Invalid memory value. Examples: 2048, 2G, 4GB"@,
                    ),
                    Some(m) => *final(self) == *old(self) && (r matches Some(save)
                        && save.instance_name@ == settings_instance(*old(self)).unwrap() && save.mb
                        == clamp_memory(m)),
                }
            },
    {
        if !self.popups.is_editing_memory {
            return None;
        }
        let name = match self.settings_instance_name() {
            Some(n) => n,
            None => return None,
        };
        let parsed = parse_memory_input(self.popups.memory_edit_input.as_str());
        let mb: Option<usize> = match parsed {
            MemoryInput::Empty => None,
            MemoryInput::Gigabytes(_) => gigabytes,
            MemoryInput::Megabytes(n) => Some(n as usize),
            MemoryInput::Invalid => None,
        };
        match mb {
            None => {
                self.status_message = "❌ Invalid memory value. Examples: 2048, 2G, 4GB".to_owned();
                None
            },
            Some(m) => {
                let c = if m < MEMORY_MIN_MB {
                    MEMORY_MIN_MB
                } else if m > MEMORY_MAX_MB {
                    MEMORY_MAX_MB
                } else {
                    m
                };
                Some(MemorySave { instance_name: name, mb: c })
            },
        }
    }
}

impl App {
    /// Reports how saving the memory setting went: on success the popup
    /// closes and the value is kept.
    pub fn finish_memory_edit(&mut self, mb: usize, result: Result<(), ConfigError>)
        ensures
            match result {
                Ok(_) => {
                    &&& *final(self) == (App {
                        popups: EditPopups {
                            is_editing_memory: false,
                            memory_edit_mb: mb,
                            ..old(self).popups
                        },
                        status_message: final(self).status_message,
                        ..*old(self)
                    })
                    &&& final(self).status_message@ == "✅ Saved memory: "@ + decimal(mb as nat)
                        + " MB"@
                },
                Err(e) => status_only(*old(self), *final(self), config_error_message(e)),
            },
    {
        match result {
            Ok(_) => {
                self.popups.is_editing_memory = false;
                self.popups.memory_edit_mb = mb;
                let mut msg = "✅ Saved memory: ".to_owned();
                push_decimal(&mut msg, mb as u64);
                push_str(&mut msg, " MB");
                self.status_message = msg;
            },
            Err(e) => {
                self.status_message = config_error_text(&e);
            },
        }
    }

    /// Closes the memory popup without saving.
    pub fn cancel_memory_edit(&mut self)
        ensures
            status_only(
                App {
                    popups: EditPopups { is_editing_memory: false, ..old(self).popups },
                    ..*old(self)
                },
                *final(self),
                "Cancelled memory edit"@,
            ),
    {
        self.popups.is_editing_memory = false;
        self.status_message = "Cancelled memory edit".to_owned();
    }

    /// Closes the arguments popup without saving.
    pub fn cancel_args_edit(&mut self)
        ensures
            status_only(
                App {
                    popups: EditPopups { is_editing_args: false, ..old(self).popups },
                    ..*old(self)
                },
                *final(self),
                "Cancelled arguments edit"@,
            ),
    {
        self.popups.is_editing_args = false;
        self.status_message = "Cancelled arguments edit".to_owned();
    }

    /// Enter in the arguments popup of an instance: asks for the arguments
    /// the text holds (see `parse_args_spec`) to be saved.
    pub fn apply_args_edit(&self) -> (r: Option<ArgsSave>)
        ensures
            !self.popups.is_editing_args || settings_instance(*self) is None ==> r is None,
            self.popups.is_editing_args && settings_instance(*self) is Some ==> (r matches Some(
                save,
            ) && save.instance_name@ == settings_instance(*self).unwrap() && save.kind
                == self.popups.args_edit_kind && views(save.args@) == parse_args_spec(
                trim_seq(self.popups.args_edit_input@),
            )),
    {
        if !self.popups.is_editing_args {
            return None;
        }
        let name = match self.settings_instance_name() {
            Some(n) => n,
            None => return None,
        };
        let text = trim(self.popups.args_edit_input.as_str());
        let args = parse_shell_like_args(text.as_str());
        Some(ArgsSave { instance_name: name, kind: self.popups.args_edit_kind, args })
    }

    /// Reports how saving an instance's arguments went: on success the
    /// popup closes.
    pub fn finish_args_edit(&mut self, result: Result<(), ConfigError>)
        ensures
            match result {
                Ok(_) => status_only(
                    App {
                        popups: EditPopups { is_editing_args: false, ..old(self).popups },
                        ..*old(self)
                    },
                    *final(self),
                    args_saved_message(old(self).popups.args_edit_kind),
                ),
                Err(e) => status_only(*old(self), *final(self), config_error_message(e)),
            },
    {
        match result {
            Ok(_) => {
                self.popups.is_editing_args = false;
                self.status_message = match self.popups.args_edit_kind {
                    ArgsEditKind::Java => "✅ Saved Java arguments".to_owned(),
                    ArgsEditKind::Game => "✅ Saved Game arguments".to_owned(),
                    _ => String::new(),
                };
            },
            Err(e) => {
                self.status_message = config_error_text(&e);
            },
        }
    }

    /// Opens the popup for the refresh interval, on the configured value
    /// (or empty); reports a global config that could not be loaded.
    pub fn open_tui_refresh_interval_edit(&mut self, loaded: Result<Option<u64>, String>)
        ensures
            match loaded {
                Err(e) => status_only(
                    *old(self),
                    *final(self),
                    "❌ Failed to load global config: "@ + e@,
                ),
                Ok(v) => args_popup_opened(
                    *old(self),
                    *final(self),
                    match v {
                        Some(n) => decimal(n as nat),
                        None => Seq::empty(),
                    },
                    ArgsEditKind::GlobalTuiRefreshInterval,
                    "Editing TUI refresh interval (ms; empty for default)"@,
                ),
            },
    {
        match loaded {
            Err(e) => {
                self.status_message = concat("❌ Failed to load global config: ", e.as_str());
            },
            Ok(v) => {
                let mut t = String::new();
                if let Some(n) = v {
                    push_decimal(&mut t, n);
                }
                self.popups.is_editing_args = true;
                self.popups.args_edit_input = t;
                self.popups.args_edit_kind = ArgsEditKind::GlobalTuiRefreshInterval;
                self.status_message = "Editing TUI refresh interval (ms; empty for default)".to_owned();
            },
        }
    }

    /// Enter in the refresh interval popup, once the global config was
    /// loaded (`load`): takes the interval the text gives (see
    /// `refresh_interval_of`) and returns it for saving; reports text that
    /// is not a number.
    pub fn apply_tui_refresh_interval_edit(&mut self, load: Result<(), String>) -> (r: Option<
        Option<u64>,
    >)
        ensures
            !old(self).popups.is_editing_args || old(self).popups.args_edit_kind
                != ArgsEditKind::GlobalTuiRefreshInterval ==> r is None && *final(self) == *old(
                self,
            ),
            old(self).popups.is_editing_args && old(self).popups.args_edit_kind
                == ArgsEditKind::GlobalTuiRefreshInterval ==> match load {
                Err(e) => r is None && status_only(
                    *old(self),
                    *final(self),
                    "❌ Failed to load global config: "@ + e@,
                ),
                Ok(_) => match refresh_interval_of(old(self).popups.args_edit_input@) {
                    Err(_) => r is None && status_only(
                        *old(self),
                        *final(self),
                        "❌ Invalid number; please enter an integer in milliseconds."@,
                    ),
                    Ok(v) => r == Some(v) && *final(self) == (App {
                        settings: SettingsTab { tui_refresh_interval_ms: v, ..old(self).settings },
                        ..*old(self)
                    }),
                },
            },
    {
        if !self.popups.is_editing_args || self.popups.args_edit_kind
            != ArgsEditKind::GlobalTuiRefreshInterval {
            return None;
        }
        if let Err(e) = load {
            self.status_message = concat("❌ Failed to load global config: ", e.as_str());
            return None;
        }
        let t = trim(self.popups.args_edit_input.as_str());
        if t.as_str().is_empty() {
            self.settings.tui_refresh_interval_ms = None;
            return Some(None);
        }
        match parse_unsigned_max(t.as_str(), u64::MAX) {
            Some(n) => {
                let m = if n < 50 {
                    50
                } else {
                    n
                };
                self.settings.tui_refresh_interval_ms = Some(m);
                Some(Some(m))
            },
            None => {
                self.status_message = "❌ Invalid number; please enter an integer in milliseconds.".to_owned();
                None
            },
        }
    }

    /// Opens the popup for the global Java arguments, on the configured
    /// ones; reports a global config that could not be loaded.
    pub fn open_global_java_args_edit(&mut self, loaded: Result<Vec<String>, String>)
        ensures
            match loaded {
                Err(e) => status_only(
                    *old(self),
                    *final(self),
                    "❌ Failed to load global config: "@ + e@,
                ),
                Ok(v) => args_popup_opened(
                    *old(self),
                    *final(self),
                    format_args_spec(views(v@)),
                    ArgsEditKind::GlobalJava,
                    "Editing global Java arguments"@,
                ),
            },
    {
        match loaded {
            Err(e) => {
                self.status_message = concat("❌ Failed to load global config: ", e.as_str());
            },
            Ok(v) => {
                self.popups.is_editing_args = true;
                self.popups.args_edit_input = format_args_for_edit(&v);
                self.popups.args_edit_kind = ArgsEditKind::GlobalJava;
                self.status_message = "Editing global Java arguments".to_owned();
            },
        }
    }

    /// Enter in the global Java arguments popup, once the global config was
    /// loaded (`load`): returns the arguments the text holds for saving.
    pub fn apply_global_java_args_edit(&mut self, load: Result<(), String>) -> (r: Option<
        Vec<String>,
    >)
        ensures
            !old(self).popups.is_editing_args || old(self).popups.args_edit_kind
                != ArgsEditKind::GlobalJava ==> r is None && *final(self) == *old(self),
            old(self).popups.is_editing_args && old(self).popups.args_edit_kind
                == ArgsEditKind::GlobalJava ==> match load {
                Err(e) => r is None && status_only(
                    *old(self),
                    *final(self),
                    "❌ Failed to load global config: "@ + e@,
                ),
                Ok(_) => *final(self) == *old(self) && (r matches Some(v) && views(v@)
                    == parse_args_spec(trim_seq(old(self).popups.args_edit_input@))),
            },
    {
        if !self.popups.is_editing_args || self.popups.args_edit_kind != ArgsEditKind::GlobalJava {
            return None;
        }
        let parsed = parse_shell_like_args(trim(self.popups.args_edit_input.as_str()).as_str());
        if let Err(e) = load {
            self.status_message = concat("❌ Failed to load global config: ", e.as_str());
            return None;
        }
        Some(parsed)
    }

    /// Opens the popup for the global window size, on `w,h` when both are
    /// configured; reports a global config that could not be loaded.
    pub fn open_global_window_size_edit(
        &mut self,
        loaded: Result<(Option<u32>, Option<u32>), String>,
    )
        ensures
            match loaded {
                Err(e) => status_only(
                    *old(self),
                    *final(self),
                    "❌ Failed to load global config: "@ + e@,
                ),
                Ok((w, h)) => args_popup_opened(
                    *old(self),
                    *final(self),
                    window_size_text(w, h),
                    ArgsEditKind::GlobalWindowSize,
                    "Editing global window size (WIDTH,HEIGHT; empty to clear)"@,
                ),
            },
    {
        match loaded {
            Err(e) => {
                self.status_message = concat("❌ Failed to load global config: ", e.as_str());
            },
            Ok((w, h)) => {
                self.popups.is_editing_args = true;
                self.popups.args_edit_input = window_size_string(w, h);
                self.popups.args_edit_kind = ArgsEditKind::GlobalWindowSize;
                self.status_message = "Editing global window size (WIDTH,HEIGHT; empty to clear)".to_owned();
            },
        }
    }

    /// Enter in the global window size popup, once the global config was
    /// loaded (`load`): returns the change the text asks for (see
    /// `window_size_update_of`).
    pub fn apply_global_window_size_edit(&mut self, load: Result<(), String>) -> (r: Option<
        WindowSizeUpdate,
    >)
        ensures
            old(self).popups.args_edit_kind != ArgsEditKind::GlobalWindowSize ==> r is None
                && *final(self) == *old(self),
            old(self).popups.args_edit_kind == ArgsEditKind::GlobalWindowSize ==> match load {
                Err(e) => r is None && status_only(
                    *old(self),
                    *final(self),
                    "❌ Failed to load global config: "@ + e@,
                ),
                Ok(_) => *final(self) == *old(self) && (r matches Some(u)
                    && window_size_update_of(old(self).popups.args_edit_input@, u)),
            },
    {
        if self.popups.args_edit_kind != ArgsEditKind::GlobalWindowSize {
            return None;
        }
        if let Err(e) = load {
            self.status_message = concat("❌ Failed to load global config: ", e.as_str());
            return None;
        }
        Some(parse_window_size(self.popups.args_edit_input.as_str()))
    }

    /// Reports how saving the global config went: on success the popup
    /// closes.
    pub fn finish_global_save(&mut self, setting: GlobalSetting, result: Result<(), String>)
        ensures
            match result {
                Ok(_) => status_only(
                    App {
                        popups: EditPopups { is_editing_args: false, ..old(self).popups },
                        ..*old(self)
                    },
                    *final(self),
                    saved_message(setting),
                ),
                Err(e) => status_only(
                    *old(self),
                    *final(self),
                    "❌ Failed to save global config: "@ + e@,
                ),
            },
    {
        match result {
            Ok(_) => {
                self.popups.is_editing_args = false;
                self.status_message = match setting {
                    GlobalSetting::RefreshInterval => "✅ Saved TUI refresh interval".to_owned(),
                    GlobalSetting::JavaArgs => "✅ Saved global Java arguments".to_owned(),
                    GlobalSetting::WindowSize => "✅ Saved global window size".to_owned(),
                };
            },
            Err(e) => {
                self.status_message = concat("❌ Failed to save global config: ", e.as_str());
            },
        }
    }

    /// Enter on the Java sub-page: item 0 is a placeholder, item 1 switches
    /// the Java arguments mode, item 2 edits the Java arguments and item 3
    /// the memory.
    pub fn select_in_java_page(&mut self) -> (r: PageAction)
        ensures
            old(self).instance_page.instance_settings_selected == 0 ==> r is Nothing
                && status_only(*old(self), *final(self), "(placeholder) Custom Java executable"@),
            old(self).instance_page.instance_settings_selected == 1 ==> *final(self) == *old(self)
                && match settings_instance(*old(self)) {
                Some(name) => r matches PageAction::CycleJavaArgsMode(s) && s@ == name,
                None => r is Nothing,
            },
            old(self).instance_page.instance_settings_selected == 2 ==> *final(self) == *old(self)
                && r is EditJavaArgs,
            old(self).instance_page.instance_settings_selected == 3 ==> *final(self) == *old(self)
                && r is EditMemory,
            old(self).instance_page.instance_settings_selected > 3 ==> *final(self) == *old(self)
                && r is Nothing,
    {
        match self.instance_page.instance_settings_selected {
            0 => {
                self.status_message = "(placeholder) Custom Java executable".to_owned();
                PageAction::Nothing
            },
            1 => match self.settings_instance_name() {
                Some(name) => PageAction::CycleJavaArgsMode(name),
                None => PageAction::Nothing,
            },
            2 => PageAction::EditJavaArgs,
            3 => PageAction::EditMemory,
            _ => PageAction::Nothing,
        }
    }

    /// Enter on the Launch sub-page: item 0 edits the game arguments, item
    /// 1 the window size.
    pub fn select_in_launch_page(&self) -> (r: PageAction)
        ensures
            self.instance_page.instance_settings_selected == 0 ==> r is EditGameArgs,
            self.instance_page.instance_settings_selected == 1 ==> r is EditWindowSize,
            self.instance_page.instance_settings_selected > 1 ==> r is Nothing,
    {
        match self.instance_page.instance_settings_selected {
            0 => PageAction::EditGameArgs,
            1 => PageAction::EditWindowSize,
            _ => PageAction::Nothing,
        }
    }
}
} // verus!
