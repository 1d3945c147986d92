//! Frontend and core configuration: the option registry, the frontend's
//! own options, and reading, writing and applying `key = value` text.

use vstd::prelude::*;
use crate::common::text::{chars_eq, chars_of, find_char, first_index_of, lemma_first_index_of, parse_u32, parsed_uint, str_eq, sub_chars};
use crate::minarch::controls::{copy_mapping, parse_bind, parse_bind_button, ButtonMapping, Shortcut};

verus! {

/// One configuration option.
pub struct ConfigOption {
    /// Key, as in the configuration file and the core's queries.
    pub key: String,
    /// Display name.
    pub name: String,
    /// Short description, if the core gave one.
    pub desc: Option<String>,
    /// Full description.
    pub full: Option<String>,
    /// Index of the default value.
    pub default_value: usize,
    /// Index of the current value.
    pub value: usize,
    /// Number of values.
    pub count: usize,
    /// Locked by the configuration file (`-key`).
    pub lock: bool,
    /// The values, as written to the configuration file.
    pub values: Vec<String>,
    /// Display labels of the values.
    pub labels: Vec<String>,
}

/// A set of options and whether one changed since the core last asked.
pub struct OptionList {
    /// Options, in the order the core reported them.
    pub options: Vec<ConfigOption>,
    /// Some value changed since the last `GET_VARIABLE_UPDATE`.
    pub changed: bool,
}

/// The display name for a key: one core's key has a name of its own.
pub open spec fn name_for_key(key: Seq<char>, name: Seq<char>) -> Seq<char> {
    if key == "pcsx_rearmed_analog_combo"@ {
        "DualShock Toggle Combo"@
    } else {
        name
    }
}

/// The display name of an option key, overriding the core's name where
/// the frontend has a better one.
pub fn get_option_name_from_key<'a>(key: &str, name: &'a str) -> (r: &'a str)
    ensures
        r@ == name_for_key(key@, name@),
{
    if str_eq(key, "pcsx_rearmed_analog_combo") {
        "DualShock Toggle Combo"
    } else {
        name
    }
}

/// Index of the first option with `key` at or after `i`, or -1.
pub open spec fn key_index_from(opts: Seq<ConfigOption>, key: Seq<char>, i: int) -> int
    decreases opts.len() - i,
{
    if i < 0 || i >= opts.len() {
        -1
    } else if opts[i].key@ == key {
        i
    } else {
        key_index_from(opts, key, i + 1)
    }
}

/// Index of the first option with `key`, or -1.
pub open spec fn key_index(opts: Seq<ConfigOption>, key: Seq<char>) -> int {
    key_index_from(opts, key, 0)
}

/// Index of the first value equal to `v` at or after `i`, or -1.
pub open spec fn value_index_from(values: Seq<String>, v: Seq<char>, i: int) -> int
    decreases values.len() - i,
{
    if i < 0 || i >= values.len() {
        -1
    } else if values[i]@ == v {
        i
    } else {
        value_index_from(values, v, i + 1)
    }
}

/// Index of the first value equal to `v`, or -1.
pub open spec fn value_index(values: Seq<String>, v: Seq<char>) -> int {
    value_index_from(values, v, 0)
}

proof fn lemma_key_index_from(opts: Seq<ConfigOption>, key: Seq<char>, i: int)
    requires
        0 <= i,
    ensures
        key_index_from(opts, key, i) == -1 || (i <= key_index_from(opts, key, i) < opts.len()
            && opts[key_index_from(opts, key, i)].key@ == key),
    decreases opts.len() - i,
{
    if i < opts.len() && opts[i].key@ != key {
        lemma_key_index_from(opts, key, i + 1);
    }
}

proof fn lemma_value_index_from(values: Seq<String>, v: Seq<char>, i: int)
    requires
        0 <= i,
    ensures
        value_index_from(values, v, i) == -1 || (i <= value_index_from(values, v, i)
            < values.len() && values[value_index_from(values, v, i)]@ == v),
    decreases values.len() - i,
{
    if i < values.len() && values[i]@ != v {
        lemma_value_index_from(values, v, i + 1);
    }
}

/// `s@ == t@` for an owned string and a borrowed one.
fn string_is(s: &String, t: &str) -> (r: bool)
    ensures
        r == (s@ == t@),
{
    str_eq(s.as_str(), t)
}

/// Finds the first option with `key`.
fn find_key(opts: &Vec<ConfigOption>, key: &str) -> (r: Option<usize>)
    ensures
        match r {
            Some(k) => k == key_index(opts@, key@) && k < opts@.len(),
            None => key_index(opts@, key@) == -1,
        },
{
    let mut i: usize = 0;
    while i < opts.len()
        invariant
            0 <= i <= opts@.len(),
            key_index(opts@, key@) == key_index_from(opts@, key@, i as int),
        decreases opts@.len() - i,
    {
        if string_is(&opts[i].key, key) {
            return Some(i);
        }
        i = i + 1;
    }
    None
}

/// Finds the first value equal to `v`.
fn find_value(values: &Vec<String>, v: &str) -> (r: Option<usize>)
    ensures
        match r {
            Some(k) => k == value_index(values@, v@) && k < values@.len(),
            None => value_index(values@, v@) == -1,
        },
{
    let mut i: usize = 0;
    while i < values.len()
        invariant
            0 <= i <= values@.len(),
            value_index(values@, v@) == value_index_from(values@, v@, i as int),
        decreases values@.len() - i,
    {
        if string_is(&values[i], v) {
            return Some(i);
        }
        i = i + 1;
    }
    None
}

/// The value string of an option.
pub open spec fn current_value(o: ConfigOption) -> Seq<char> {
    o.values@[o.value as int]@
}

/// The option's current index names one of its values.
pub open spec fn has_current(o: ConfigOption) -> bool {
    o.value < o.values@.len()
}

/// Setting the option `key` to the value written `value`: when both are
/// found the option takes that value and the list is marked changed;
/// otherwise nothing changes.
pub open spec fn sets_option_value(
    before: OptionList,
    after: OptionList,
    key: Seq<char>,
    value: Seq<char>,
) -> bool {
    let k = key_index(before.options@, key);
    let j = if k >= 0 {
        value_index(before.options@[k].values@, value)
    } else {
        -1
    };
    if k >= 0 && j >= 0 {
        after.options@ == with_value(before.options@, k, j as usize) && after.changed
    } else {
        after.options@ == before.options@ && after.changed == before.changed
    }
}

/// Option `k` with a new current index.
pub open spec fn with_value(opts: Seq<ConfigOption>, k: int, value: usize) -> Seq<ConfigOption> {
    opts.update(k, ConfigOption { value: value, ..opts[k] })
}

impl OptionList {
    /// The first option with `key`.
    pub fn get_option(&self, key: &str) -> (r: Option<&ConfigOption>)
        ensures
            match r {
                Some(o) => key_index(self.options@, key@) >= 0 && *o == self.options@[key_index(
                    self.options@,
                    key@,
                )],
                None => key_index(self.options@, key@) == -1,
            },
    {
        match find_key(&self.options, key) {
            Some(k) => Some(&self.options[k]),
            None => None,
        }
    }

    /// The current value string of the first option with `key`.
    pub fn get_option_value(&self, key: &str) -> (r: Option<&str>)
        requires
            key_index(self.options@, key@) >= 0 ==> has_current(
                self.options@[key_index(self.options@, key@)],
            ),
        ensures
            match r {
                Some(v) => key_index(self.options@, key@) >= 0 && v@ == current_value(
                    self.options@[key_index(self.options@, key@)],
                ),
                None => key_index(self.options@, key@) == -1,
            },
    {
        match find_key(&self.options, key) {
            Some(k) => {
                let o = &self.options[k];
                Some(o.values[o.value].as_str())
            },
            None => None,
        }
    }

    /// Sets the current index of the first option with `key`; an unknown
    /// key or an index beyond the option's count changes nothing.
    pub fn set_option_raw_value(&mut self, key: &str, value: usize)
        ensures
            ({
                let k = key_index(old(self).options@, key@);
                if k >= 0 && value < old(self).options@[k].count {
                    final(self).options@ == with_value(old(self).options@, k, value)
                        && final(self).changed
                } else {
                    final(self).options@ == old(self).options@ && final(self).changed == old(
                        self,
                    ).changed
                }
            }),
    {
        match find_key(&self.options, key) {
            Some(k) => {
                if value < self.options[k].count {
                    let mut o = self.options.remove(k);
                    o.value = value;
                    self.options.insert(k, o);
                    self.changed = true;
                    assert(self.options@ =~= with_value(old(self).options@, k as int, value));
                }
            },
            None => {},
        }
    }

    /// Sets the first option with `key` to the first of its values equal
    /// to `value`; an unknown key or value changes nothing.
    pub fn set_option_value(&mut self, key: &str, value: &str)
        ensures
            sets_option_value(*old(self), *final(self), key@, value@),
    {
        match find_key(&self.options, key) {
            Some(k) => {
                match find_value(&self.options[k].values, value) {
                    Some(j) => {
                        let mut o = self.options.remove(k);
                        o.value = j;
                        self.options.insert(k, o);
                        self.changed = true;
                        assert(self.options@ =~= with_value(old(self).options@, k as int, j));
                    },
                    None => {},
                }
            },
            None => {},
        }
    }
}

/// The strings hold exactly the given texts.
pub open spec fn strings_are(v: Seq<String>, s: Seq<Seq<char>>) -> bool {
    v.len() == s.len() && forall|i: int| 0 <= i < v.len() ==> (#[trigger] v[i])@ == s[i]
}

/// The texts of string slices.
pub open spec fn texts_of(labels: Seq<&str>) -> Seq<Seq<char>> {
    labels.map_values(|s: &str| s@)
}

/// Owned copies of string slices.
fn strings_of(labels: &[&str]) -> (v: Vec<String>)
    ensures
        strings_are(v@, texts_of(labels@)),
{
    let mut v: Vec<String> = Vec::new();
    let mut i: usize = 0;
    while i < labels.len()
        invariant
            0 <= i <= labels@.len(),
            v@.len() == i,
            forall|k: int| 0 <= k < i ==> (#[trigger] v@[k])@ == labels@[k]@,
        decreases labels@.len() - i,
    {
        v.push(String::from_str(labels[i]));
        i = i + 1;
    }
    v
}

/// A frontend option as built from its key, name, description, default
/// and labels: the labels are also the values, and the option starts at
/// its default.
pub open spec fn is_frontend_option(
    o: ConfigOption,
    key: Seq<char>,
    name: Seq<char>,
    desc: Seq<char>,
    default_value: usize,
    labels: Seq<Seq<char>>,
) -> bool {
    &&& o.key@ == key
    &&& o.name@ == name
    &&& o.desc matches Some(d) && d@ == desc
    &&& o.full matches Some(f) && f@ == desc
    &&& o.default_value == default_value
    &&& o.value == default_value
    &&& o.count == labels.len()
    &&& !o.lock
    &&& strings_are(o.values@, labels)
    &&& strings_are(o.labels@, labels)
}

/// Builds one frontend option.
fn build_frontend_option(
    key: &str,
    name: &str,
    desc: &str,
    default_value: usize,
    labels: &[&str],
) -> (o: ConfigOption)
    ensures
        is_frontend_option(o, key@, name@, desc@, default_value, texts_of(labels@)),
{
    let values = strings_of(labels);
    let shown = strings_of(labels);
    ConfigOption {
        key: String::from_str(key),
        name: String::from_str(name),
        desc: Some(String::from_str(desc)),
        full: Some(String::from_str(desc)),
        default_value,
        value: default_value,
        count: values.len(),
        lock: false,
        values,
        labels: shown,
    }
}

/// Description of the scaling option without overscan.
pub open spec fn scaling_desc(overscan: bool) -> Seq<char> {
    if overscan {
        "Native uses integer scaling. Aspect uses core\nreported aspect ratio. Fullscreen has non-square\npixels. Cropped is integer scaled then cropped."@
    } else {
        "Native uses integer scaling.\nAspect uses core reported aspect ratio.\nFullscreen has non-square pixels."@
    }
}

/// Labels of the scaling option: `Cropped` only with overscan.
pub open spec fn scaling_labels(overscan: bool) -> Seq<Seq<char>> {
    if overscan {
        seq!["Native"@, "Aspect"@, "Fullscreen"@, "Cropped"@]
    } else {
        seq!["Native"@, "Aspect"@, "Fullscreen"@]
    }
}

/// Key, name, description, default index and labels of the i-th frontend
/// option.
pub open spec fn frontend_entry(i: int, overscan: bool) -> (
    Seq<char>,
    Seq<char>,
    Seq<char>,
    usize,
    Seq<Seq<char>>,
) {
    if i == 0 {
        ("minarch_screen_scaling"@, "Screen Scaling"@, scaling_desc(overscan), 1, scaling_labels(
            overscan,
        ))
    } else if i == 1 {
        (
            "minarch_screen_effect"@,
            "Screen Effect"@,
            "Grid simulates an LCD grid.\nLine simulates CRT scanlines.\nEffects usually look best at native scaling."@,
            0,
            seq!["None"@, "Line"@, "Grid"@],
        )
    } else if i == 2 {
        (
            "minarch_screen_sharpness"@,
            "Screen Sharpness"@,
            "Sharp uses nearest neighbor sampling.\nCrisp integer upscales before linear sampling.\nSoft uses linear sampling."@,
            2,
            seq!["Sharp"@, "Crisp"@, "Soft"@],
        )
    } else if i == 3 {
        (
            "minarch_prevent_tearing"@,
            "Prevent Tearing"@,
            "Wait for vsync before drawing the next frame.\nLenient only waits when within frame budget.\nStrict always waits."@,
            1,
            seq!["Off"@, "Lenient"@, "Strict"@],
        )
    } else if i == 4 {
        (
            "minarch_cpu_speed"@,
            "CPU Speed"@,
            "Over- or underclock the CPU to prioritize\npure performance or power savings."@,
            1,
            seq!["Powersave"@, "Normal"@, "Performance"@],
        )
    } else if i == 5 {
        (
            "minarch_thread_video"@,
            "Prioritize Audio"@,
            "Can eliminate crackle but\nmay cause dropped frames.\nOnly turn on if necessary."@,
            0,
            seq!["Off"@, "On"@],
        )
    } else if i == 6 {
        (
            "minarch_debug_hud"@,
            "Debug HUD"@,
            "Show frames per second, cpu load,\nresolution, and scaler information."@,
            0,
            seq!["Off"@, "On"@],
        )
    } else {
        (
            "minarch_max_ff_speed"@,
            "Max FF Speed"@,
            "Fast forward will not exceed the\nselected speed (but may be less\ndepending on game and emulator)."@,
            3,
            seq!["None"@, "2x"@, "3x"@, "4x"@, "5x"@, "6x"@, "7x"@, "8x"@],
        )
    }
}

/// The eight frontend options, in menu order: scaling (three labels, or
/// four with overscan), effect, sharpness, tearing, CPU speed, audio
/// priority, debug HUD and maximum fast-forward speed.
pub fn frontend_options(supports_overscan: bool) -> (v: Vec<ConfigOption>)
    ensures
        v@.len() == 8,
        forall|i: int|
            0 <= i < 8 ==> {
                let e = frontend_entry(i, supports_overscan);
                is_frontend_option(#[trigger] v@[i], e.0, e.1, e.2, e.3, e.4)
            },
{
    let mut v: Vec<ConfigOption> = Vec::new();
    if supports_overscan {
        let labels: [&str; 4] = ["Native", "Aspect", "Fullscreen", "Cropped"];
        let o = build_frontend_option(
            "minarch_screen_scaling",
            "Screen Scaling",
            "Native uses integer scaling. Aspect uses core\nreported aspect ratio. Fullscreen has non-square\npixels. Cropped is integer scaled then cropped.",
            1,
            &labels,
        );
        assert(texts_of(labels@) =~= scaling_labels(true));
        v.push(o);
    } else {
        let labels: [&str; 3] = ["Native", "Aspect", "Fullscreen"];
        let o = build_frontend_option(
            "minarch_screen_scaling",
            "Screen Scaling",
            "Native uses integer scaling.\nAspect uses core reported aspect ratio.\nFullscreen has non-square pixels.",
            1,
            &labels,
        );
        assert(texts_of(labels@) =~= scaling_labels(false));
        v.push(o);
    }
    let effect: [&str; 3] = ["None", "Line", "Grid"];
    let o = build_frontend_option(
        "minarch_screen_effect",
        "Screen Effect",
        "Grid simulates an LCD grid.\nLine simulates CRT scanlines.\nEffects usually look best at native scaling.",
        0,
        &effect,
    );
    assert(texts_of(effect@) =~= frontend_entry(1, supports_overscan).4);
    v.push(o);
    let sharp: [&str; 3] = ["Sharp", "Crisp", "Soft"];
    let o = build_frontend_option(
        "minarch_screen_sharpness",
        "Screen Sharpness",
        "Sharp uses nearest neighbor sampling.\nCrisp integer upscales before linear sampling.\nSoft uses linear sampling.",
        2,
        &sharp,
    );
    assert(texts_of(sharp@) =~= frontend_entry(2, supports_overscan).4);
    v.push(o);
    let tearing: [&str; 3] = ["Off", "Lenient", "Strict"];
    let o = build_frontend_option(
        "minarch_prevent_tearing",
        "Prevent Tearing",
        "Wait for vsync before drawing the next frame.\nLenient only waits when within frame budget.\nStrict always waits.",
        1,
        &tearing,
    );
    assert(texts_of(tearing@) =~= frontend_entry(3, supports_overscan).4);
    v.push(o);
    let clock: [&str; 3] = ["Powersave", "Normal", "Performance"];
    let o = build_frontend_option(
        "minarch_cpu_speed",
        "CPU Speed",
        "Over- or underclock the CPU to prioritize\npure performance or power savings.",
        1,
        &clock,
    );
    assert(texts_of(clock@) =~= frontend_entry(4, supports_overscan).4);
    v.push(o);
    let onoff: [&str; 2] = ["Off", "On"];
    let o = build_frontend_option(
        "minarch_thread_video",
        "Prioritize Audio",
        "Can eliminate crackle but\nmay cause dropped frames.\nOnly turn on if necessary.",
        0,
        &onoff,
    );
    assert(texts_of(onoff@) =~= frontend_entry(5, supports_overscan).4);
    v.push(o);
    let o = build_frontend_option(
        "minarch_debug_hud",
        "Debug HUD",
        "Show frames per second, cpu load,\nresolution, and scaler information.",
        0,
        &onoff,
    );
    assert(texts_of(onoff@) =~= frontend_entry(6, supports_overscan).4);
    v.push(o);
    let max_ff: [&str; 8] = ["None", "2x", "3x", "4x", "5x", "6x", "7x", "8x"];
    let o = build_frontend_option(
        "minarch_max_ff_speed",
        "Max FF Speed",
        "Fast forward will not exceed the\nselected speed (but may be less\ndepending on game and emulator).",
        3,
        &max_ff,
    );
    assert(texts_of(max_ff@) =~= frontend_entry(7, supports_overscan).4);
    v.push(o);
    v
}

/// The result of looking a key up in configuration text.
pub struct CfgValue {
    /// The value, up to the end of its line.
    pub value: String,
    /// The key was written `-key`: the option is locked.
    pub lock: bool,
}

/// One `key = value` line to write.
pub struct CfgEntry {
    /// Key.
    pub key: String,
    /// Value.
    pub value: String,
}

/// `" = "` at `q`.
pub open spec fn separator_at(s: Seq<char>, q: int) -> bool {
    0 <= q && q + 3 <= s.len() && s[q] == ' ' && s[q + 1] == '=' && s[q + 2] == ' '
}

/// The end of the line that contains `q`: the first `\n` or `\r` at or
/// after `q`, or the end of the text.
pub open spec fn line_end(s: Seq<char>, q: int) -> int
    decreases s.len() - q,
{
    if q < 0 || q >= s.len() {
        s.len() as int
    } else if s[q] == '\n' || s[q] == '\r' {
        q
    } else {
        line_end(s, q + 1)
    }
}

pub proof fn lemma_line_end(s: Seq<char>, q: int)
    requires
        0 <= q <= s.len(),
    ensures
        q <= line_end(s, q) <= s.len(),
        forall|j: int| q <= j < line_end(s, q) ==> s[j] != '\n' && s[j] != '\r',
    decreases s.len() - q,
{
    if q < s.len() && s[q] != '\n' && s[q] != '\r' {
        lemma_line_end(s, q + 1);
    }
}

/// The value a line gives for `k`: the line reads `k = value` (the
/// separator exactly `" = "`), unlocked, or `-k = value`, locked.
pub open spec fn line_value(line: Seq<char>, k: Seq<char>) -> Option<(Seq<char>, bool)> {
    let n = k.len() as int;
    if line.len() >= n + 3 && line.take(n) == k && separator_at(line, n) {
        Some((line.skip(n + 3), false))
    } else if line.len() >= n + 4 && line[0] == '-' && line.subrange(1, n + 1) == k
        && separator_at(line, n + 1) {
        Some((line.skip(n + 4), true))
    } else {
        None
    }
}

/// Looking `k` up in configuration text: the value given by the first
/// line (lines end at `\n` or `\r`) that sets `k`, and whether it is
/// locked.
pub open spec fn cfg_lookup(s: Seq<char>, k: Seq<char>) -> Option<(Seq<char>, bool)>
    decreases s.len(),
{
    let e = line_end(s, 0);
    match line_value(s.take(e), k) {
        Some(r) => Some(r),
        None => if e < s.len() {
            proof {
                lemma_line_end(s, 0);
            }
            cfg_lookup(s.skip(e + 1), k)
        } else {
            None
        },
    }
}

/// Line ends seen from a later start.
proof fn lemma_line_end_skip(s: Seq<char>, p: int, q: int)
    requires
        0 <= p <= q <= s.len(),
    ensures
        line_end(s.skip(p), q - p) == line_end(s, q) - p,
    decreases s.len() - q,
{
    if q < s.len() && s[q] != '\n' && s[q] != '\r' {
        lemma_line_end_skip(s, p, q + 1);
    }
}

/// `a[lo..lo + b.len()] == b`.
fn range_is(a: &Vec<char>, lo: usize, b: &Vec<char>) -> (r: bool)
    requires
        lo + b@.len() <= a@.len(),
    ensures
        r == (a@.subrange(lo as int, lo + b@.len()) == b@),
{
    let mut i: usize = 0;
    while i < b.len()
        invariant
            0 <= i <= b@.len(),
            lo + b@.len() <= a.len(),
            forall|j: int| 0 <= j < i ==> a@[lo + j] == b@[j],
        decreases b@.len() - i,
    {
        if a[lo + i] != b[i] {
            assert(a@.subrange(lo as int, lo + b@.len())[i as int] != b@[i as int]);
            return false;
        }
        i = i + 1;
    }
    assert(a@.subrange(lo as int, lo + b@.len()) =~= b@);
    true
}

/// Looks `key` up in configuration text: the value of the first line
/// `key = value` or `-key = value` (the separator exactly `" = "`), up to
/// the end of that line, and whether the key is written `-key`.
pub fn get_cfg_value(cfg: &str, key: &str) -> (r: Option<CfgValue>)
    ensures
        match r {
            Some(c) => cfg_lookup(cfg@, key@) == Some((c.value@, c.lock)),
            None => cfg_lookup(cfg@, key@) is None,
        },
{
    let s = chars_of(cfg);
    let k = chars_of(key);
    let n = k.len();
    let mut pos: usize = 0;
    assert(s@.skip(0) =~= s@);
    while pos <= s.len()
        invariant
            s@ == cfg@,
            k@ == key@,
            n == k@.len(),
            pos <= s@.len(),
            cfg_lookup(s@, k@) == cfg_lookup(s@.skip(pos as int), k@),
        decreases s@.len() - pos,
    {
        let ghost rest = s@.skip(pos as int);
        let mut e = pos;
        while e < s.len() && s[e] != '\n' && s[e] != '\r'
            invariant
                pos <= e <= s@.len(),
                line_end(s@, pos as int) == line_end(s@, e as int),
            decreases s@.len() - e,
        {
            e = e + 1;
        }
        proof {
            lemma_line_end_skip(s@, pos as int, pos as int);
            assert(rest.take(e - pos) =~= s@.subrange(pos as int, e as int));
        }
        let ghost line = s@.subrange(pos as int, e as int);
        if e - pos >= 3 && e - pos - 3 >= n && range_is(&s, pos, &k) && s[pos + n] == ' ' && s[pos + n + 1] == '='
            && s[pos + n + 2] == ' ' {
            assert(line.take(n as int) =~= s@.subrange(pos as int, pos + n));
            let value = crate::common::text::string_of(&s, pos + n + 3, e);
            assert(line.skip(n + 3) =~= value@);
            return Some(CfgValue { value, lock: false });
        }
        assert(e - pos >= n + 3 ==> line.take(n as int) =~= s@.subrange(pos as int, pos + n));
        if e - pos >= 4 && e - pos - 4 >= n && s[pos] == '-' && range_is(&s, pos + 1, &k) && s[pos + n + 1] == ' '
            && s[pos + n + 2] == '=' && s[pos + n + 3] == ' ' {
            assert(line.subrange(1, n + 1) =~= s@.subrange(pos + 1, pos + 1 + n));
            let value = crate::common::text::string_of(&s, pos + n + 4, e);
            assert(line.skip(n + 4) =~= value@);
            return Some(CfgValue { value, lock: true });
        }
        assert(e - pos >= n + 4 ==> line.subrange(1, n + 1) =~= s@.subrange(pos + 1, pos + 1 + n));
        assert(line_value(line, k@) is None);
        if e == s.len() {
            return None;
        }
        assert(rest.skip(e - pos + 1) =~= s@.skip(e + 1));
        pos = e + 1;
    }
    None
}

/// The line written for one entry: `key = value` and a newline.
pub open spec fn cfg_line(e: CfgEntry) -> Seq<char> {
    e.key@ + seq![' ', '=', ' '] + e.value@ + seq!['\n']
}

/// The text written for a list of entries, one line each.
pub open spec fn cfg_text(es: Seq<CfgEntry>) -> Seq<char>
    decreases es.len(),
{
    if es.len() == 0 {
        Seq::empty()
    } else {
        cfg_text(es.drop_last()) + cfg_line(es.last())
    }
}

/// Writes entries as configuration text, one `key = value` line each.
pub fn serialize_cfg(entries: &[CfgEntry]) -> (r: String)
    ensures
        r@ == cfg_text(entries@),
{
    let mut out = String::new();
    let mut i: usize = 0;
    while i < entries.len()
        invariant
            0 <= i <= entries@.len(),
            out@ == cfg_text(entries@.take(i as int)),
        decreases entries@.len() - i,
    {
        let e = &entries[i];
        out.append(e.key.as_str());
        crate::common::text::push_char(&mut out, ' ');
        crate::common::text::push_char(&mut out, '=');
        crate::common::text::push_char(&mut out, ' ');
        out.append(e.value.as_str());
        crate::common::text::push_char(&mut out, '\n');
        assert(entries@.take(i + 1).drop_last() =~= entries@.take(i as int));
        assert(out@ =~= cfg_text(entries@.take(i + 1)));
        i = i + 1;
    }
    assert(entries@.take(entries@.len() as int) =~= entries@);
    out
}

proof fn lemma_cfg_text_first(es: Seq<CfgEntry>)
    requires
        es.len() > 0,
    ensures
        cfg_text(es) == cfg_line(es[0]) + cfg_text(es.drop_first()),
    decreases es.len(),
{
    if es.len() == 1 {
        assert(es.drop_first() =~= Seq::<CfgEntry>::empty());
        assert(es.drop_last() =~= Seq::<CfgEntry>::empty());
        assert(cfg_text(es.drop_last()) == Seq::<char>::empty());
        assert(cfg_text(es.drop_first()) == Seq::<char>::empty());
        assert(cfg_text(es) =~= cfg_line(es[0]));
    } else {
        lemma_cfg_text_first(es.drop_last());
        assert(es.drop_last().drop_first() =~= es.drop_first().drop_last());
        assert(es.drop_last()[0] == es[0]);
        assert(es.drop_first().last() == es.last());
        assert(cfg_text(es) =~= cfg_line(es[0]) + cfg_text(es.drop_first()));
    }
}

proof fn lemma_line_end_at(s: Seq<char>, q: int, e: int)
    requires
        0 <= q <= e < s.len(),
        s[e] == '\n',
        forall|j: int| q <= j < e ==> s[j] != '\n' && s[j] != '\r',
    ensures
        line_end(s, q) == e,
    decreases e - q,
{
    if q < e {
        lemma_line_end_at(s, q + 1, e);
    }
}

/// A key that writes as the head of its own line: no space and no line
/// break in it.
pub open spec fn plain_key(k: Seq<char>) -> bool {
    forall|j: int| 0 <= j < k.len() ==> k[j] != ' ' && k[j] != '\n' && k[j] != '\r'
}

/// A value with no line break in it.
pub open spec fn plain_value(v: Seq<char>) -> bool {
    forall|j: int| 0 <= j < v.len() ==> v[j] != '\n' && v[j] != '\r'
}

/// Another plain key gives nothing on the line written for `k0`, unless
/// `k0` is that key locked, `-` and the key.
proof fn lemma_line_value_other(k0: Seq<char>, v0: Seq<char>, k: Seq<char>)
    requires
        plain_key(k0),
        plain_key(k),
        k != k0,
        k0 != seq!['-'] + k,
    ensures
        line_value(k0 + seq![' ', '=', ' '] + v0, k) is None,
{
    let line = k0 + seq![' ', '=', ' '] + v0;
    let n = k.len() as int;
    let m = k0.len() as int;
    if line.len() >= n + 3 && line.take(n) == k && separator_at(line, n) {
        if n == m {
            assert(line.take(n) =~= k0);
        } else if n < m {
            assert(line[n] == k0[n]);
        } else {
            assert(line.take(n)[m] == line[m]);
            assert(k[m] == ' ');
        }
    }
    if line.len() >= n + 4 && line[0] == '-' && line.subrange(1, n + 1) == k && separator_at(
        line,
        n + 1,
    ) {
        if m == n + 1 {
            assert forall|t: int| 0 <= t < m implies k0[t] == (seq!['-'] + k)[t] by {
                assert(k0[t] == line[t]);
                if t >= 1 {
                    assert(line.subrange(1, n + 1)[t - 1] == line[t]);
                }
            }
            assert(k0 =~= seq!['-'] + k);
        } else if m > n + 1 {
            assert(line[n + 1] == k0[n + 1]);
        } else if m == 0 {
            assert(line[0] == ' ');
        } else {
            assert(line[m] == ' ');
            assert(line.subrange(1, n + 1)[m - 1] == line[m]);
            assert(k[m - 1] == ' ');
        }
    }
}

/// Looking up in the text of a non-empty list of entries: the first line,
/// else the rest.
proof fn lemma_cfg_lookup_first(es: Seq<CfgEntry>, k: Seq<char>)
    requires
        es.len() > 0,
        plain_key(es[0].key@),
        plain_value(es[0].value@),
    ensures
        cfg_lookup(cfg_text(es), k) == (match line_value(
            es[0].key@ + seq![' ', '=', ' '] + es[0].value@,
            k,
        ) {
            Some(r) => Some(r),
            None => cfg_lookup(cfg_text(es.drop_first()), k),
        }),
{
    let k0 = es[0].key@;
    let v0 = es[0].value@;
    let body = k0 + seq![' ', '=', ' '] + v0;
    let rest = cfg_text(es.drop_first());
    lemma_cfg_text_first(es);
    let t = cfg_text(es);
    assert(t =~= body + seq!['\n'] + rest);
    let e = body.len() as int;
    assert(t[e] == '\n');
    assert forall|j: int| 0 <= j < e implies t[j] != '\n' && t[j] != '\r' by {
        assert(t[j] == body[j]);
        if j >= k0.len() + 3 {
            assert(body[j] == v0[j - k0.len() - 3]);
        }
    }
    lemma_line_end_at(t, 0, e);
    assert(t.take(e) =~= body);
    assert(t.skip(e + 1) =~= rest);
}

/// What is written reads back: in the text written for entries with
/// distinct keys holding no space or line break, no key being `-` followed
/// by another key, and values without line breaks, each entry's key gives
/// that entry's value, unlocked.
pub proof fn lemma_cfg_round_trip(entries: Seq<CfgEntry>)
    requires
        forall|i: int| 0 <= i < entries.len() ==> plain_key(#[trigger] entries[i].key@),
        forall|i: int| 0 <= i < entries.len() ==> plain_value(#[trigger] entries[i].value@),
        forall|i: int, j: int|
            0 <= i < j < entries.len() ==> entries[i].key@ != entries[j].key@,
        forall|i: int, j: int|
            0 <= i < entries.len() && 0 <= j < entries.len() ==> entries[i].key@ != seq!['-']
                + entries[j].key@,
    ensures
        forall|i: int|
            0 <= i < entries.len() ==> cfg_lookup(cfg_text(entries), #[trigger] entries[i].key@)
                == Some((entries[i].value@, false)),
    decreases entries.len(),
{
    if entries.len() > 0 {
        let rest = entries.drop_first();
        assert forall|i: int| 0 <= i < rest.len() implies plain_key(#[trigger] rest[i].key@) by {
            assert(rest[i] == entries[i + 1]);
        }
        assert forall|i: int| 0 <= i < rest.len() implies plain_value(#[trigger] rest[i].value@) by {
            assert(rest[i] == entries[i + 1]);
        }
        assert forall|i: int, j: int| 0 <= i < j < rest.len() implies rest[i].key@ != rest[j].key@ by {
            assert(rest[i] == entries[i + 1]);
            assert(rest[j] == entries[j + 1]);
        }
        assert forall|i: int, j: int|
            0 <= i < rest.len() && 0 <= j < rest.len() implies rest[i].key@ != seq!['-']
                + rest[j].key@ by {
            assert(rest[i] == entries[i + 1]);
            assert(rest[j] == entries[j + 1]);
        }
        lemma_cfg_round_trip(rest);
        let k0 = entries[0].key@;
        let v0 = entries[0].value@;
        assert forall|i: int| 0 <= i < entries.len() implies cfg_lookup(
            cfg_text(entries),
            #[trigger] entries[i].key@,
        ) == Some((entries[i].value@, false)) by {
            let k = entries[i].key@;
            lemma_cfg_lookup_first(entries, k);
            let body = k0 + seq![' ', '=', ' '] + v0;
            if i == 0 {
                assert(body.take(k0.len() as int) =~= k0);
                assert(body.skip(k0.len() + 3int) =~= v0);
                assert(separator_at(body, k0.len() as int));
            } else {
                assert(entries[0].key@ != seq!['-'] + entries[i].key@);
                lemma_line_value_other(k0, v0, k);
                assert(rest[i - 1] == entries[i]);
            }
        }
    }
}

proof fn lemma_key_index_update(opts: Seq<ConfigOption>, key: Seq<char>, i: int, k: int, value: usize)
    requires
        0 <= i,
        0 <= k < opts.len(),
    ensures
        key_index_from(with_value(opts, k, value), key, i) == key_index_from(opts, key, i),
    decreases opts.len() - i,
{
    if i < opts.len() {
        lemma_key_index_update(opts, key, i + 1, k, value);
    }
}

/// Setting an option to one of its values and reading the option back
/// gives that value.
pub proof fn lemma_set_then_get(opts: Seq<ConfigOption>, key: Seq<char>, v: Seq<char>)
    requires
        key_index(opts, key) >= 0,
        value_index(opts[key_index(opts, key)].values@, v) >= 0,
    ensures
        ({
            let k = key_index(opts, key);
            let j = value_index(opts[k].values@, v);
            let after = with_value(opts, k, j as usize);
            key_index(after, key) == k && has_current(after[k]) && current_value(after[k]) == v
        }),
{
    let k = key_index(opts, key);
    lemma_key_index_from(opts, key, 0);
    let j = value_index(opts[k].values@, v);
    lemma_value_index_from(opts[k].values@, v, 0);
    assert(opts[k].values@.len() == opts[k].values.len());
    lemma_key_index_update(opts, key, 0, k, j as usize);
}

/// Option `j` takes its value from the configuration text: it is the first
/// option with its key, the text has the key, and the value is one of the
/// option's values.
pub open spec fn takes_cfg(opts: Seq<ConfigOption>, j: int, cfg: Seq<char>) -> bool {
    let o = opts[j];
    &&& key_index(opts, o.key@) == j
    &&& cfg_lookup(cfg, o.key@) matches Some((v, _)) && value_index(o.values@, v) >= 0
}

/// Option `j` after applying configuration text.
pub open spec fn applied_option(opts: Seq<ConfigOption>, j: int, cfg: Seq<char>) -> ConfigOption {
    let o = opts[j];
    if takes_cfg(opts, j, cfg) {
        ConfigOption { value: value_index(o.values@, cfg_lookup(cfg, o.key@).unwrap().0) as usize, ..o }
    } else {
        o
    }
}

/// The options after applying configuration text, and whether any took a
/// value.
pub open spec fn applies_cfg(before: OptionList, after: OptionList, cfg: Seq<char>) -> bool {
    &&& after.options@.len() == before.options@.len()
    &&& forall|j: int|
        0 <= j < before.options@.len() ==> #[trigger] after.options@[j] == applied_option(
            before.options@,
            j,
            cfg,
        )
    &&& after.changed == (before.changed || exists|j: int|
        0 <= j < before.options@.len() && #[trigger] takes_cfg(before.options@, j, cfg))
}

/// Sets every option that the text names to the text's value.
fn apply_options(list: &mut OptionList, cfg: &str)
    ensures
        applies_cfg(*old(list), *final(list), cfg@),
{
    let ghost before = list.options@;
    let n = list.options.len();
    let mut i: usize = 0;
    while i < n
        invariant
            0 <= i <= n,
            n == before.len(),
            list.options@.len() == n,
            forall|j: int|
                0 <= j < n ==> #[trigger] list.options@[j] == if j < i {
                    applied_option(before, j, cfg@)
                } else {
                    before[j]
                },
            list.changed == (old(list).changed || exists|j: int|
                0 <= j < i && #[trigger] takes_cfg(before, j, cfg@)),
            before == old(list).options@,
        decreases n - i,
    {
        let key = list.options[i].key.clone();
        assert(key@ == before[i as int].key@);
        let ghost cur = list.options@;
        proof {
            assert forall|j: int| 0 <= j < n implies (#[trigger] cur[j]).key@ == before[j].key@ && cur[j].values@ == before[j].values@ by {}
            lemma_key_index_same_keys(cur, before, key@, 0);
            lemma_key_index_from(before, key@, 0);
            lemma_key_index_at_most(before, key@, i as int, 0);
        }
        match get_cfg_value(cfg, key.as_str()) {
            Some(c) => {
                list.set_option_value(key.as_str(), c.value.as_str());
                proof {
                    let f = key_index(before, key@);
                    assert(key_index(cur, key@) == f);
                    assert(f <= i);
                    if f < i {
                        assert(!takes_cfg(before, i as int, cfg@));
                    }
                }
            },
            None => {
                assert(!takes_cfg(before, i as int, cfg@));
            },
        }
        proof {
            assert forall|j: int| 0 <= j < n implies #[trigger] list.options@[j] == if j < i + 1 {
                applied_option(before, j, cfg@)
            } else {
                before[j]
            } by {
                let f = key_index(before, key@);
                if j == i && f < i {
                    assert(key_index(before, before[j].key@) == f);
                }
            }
        }
        i = i + 1;
    }
}

proof fn lemma_key_index_at_most(opts: Seq<ConfigOption>, key: Seq<char>, i: int, start: int)
    requires
        0 <= start <= i < opts.len(),
        opts[i].key@ == key,
    ensures
        start <= key_index_from(opts, key, start) <= i,
    decreases i - start,
{
    if opts[start].key@ != key {
        lemma_key_index_at_most(opts, key, i, start + 1);
    }
}

proof fn lemma_key_index_same_keys(a: Seq<ConfigOption>, b: Seq<ConfigOption>, key: Seq<char>, i: int)
    requires
        0 <= i,
        a.len() == b.len(),
        forall|j: int| 0 <= j < a.len() ==> (#[trigger] a[j]).key@ == b[j].key@,
    ensures
        key_index_from(a, key, i) == key_index_from(b, key, i),
    decreases a.len() - i,
{
    if i < a.len() {
        lemma_key_index_same_keys(a, b, key, i + 1);
    }
}

/// The text before the first `:`, or all of it.
pub open spec fn before_colon(v: Seq<char>) -> Seq<char> {
    let k = first_index_of(v, ':');
    if k >= 0 {
        v.take(k)
    } else {
        v
    }
}

/// The configuration key of a binding: `bind <name>`.
pub open spec fn bind_key(name: Seq<char>) -> Seq<char> {
    "bind "@ + name
}

/// A mapping after its binding line, if any, was applied.
pub open spec fn applied_mapping(m: ButtonMapping, r: ButtonMapping, cfg: Seq<char>) -> bool {
    &&& r.name@ == m.name@
    &&& r.retro == m.retro
    &&& r.default_ == m.default_
    &&& r.ignore == m.ignore
    &&& match cfg_lookup(cfg, bind_key(m.name@)) {
        Some((v, _)) => match parse_bind(before_colon(v)) {
            Some((l, md)) => r.local == l && r.mod_ == md,
            None => r.local == m.local && r.mod_ == m.mod_,
        },
        None => r.local == m.local && r.mod_ == m.mod_,
    }
}

/// A shortcut after its binding line, if any, was applied.
pub open spec fn applied_shortcut(s: Shortcut, r: Shortcut, cfg: Seq<char>) -> bool {
    &&& r.name@ == s.name@
    &&& match cfg_lookup(cfg, bind_key(s.name@)) {
        Some((v, _)) => match parse_bind(v) {
            Some((l, md)) => r.local == l && r.mod_ == md,
            None => r.local == s.local && r.mod_ == s.mod_,
        },
        None => r.local == s.local && r.mod_ == s.mod_,
    }
}

/// `bind <name>` as a string.
fn bind_key_of(name: &String) -> (r: String)
    ensures
        r@ == bind_key(name@),
        r@.len() > 0,
{
    proof {
        reveal_strlit("bind ");
    }
    let mut k = String::from_str("bind ");
    k.append(name.as_str());
    k
}

/// Applies configuration text: the frontend options, the gamepad type,
/// the core options, then the `bind <name>` lines of the button mappings
/// (ignoring a `:suffix`) and of the shortcuts. Lines that name no option,
/// no value of it or no button are skipped.
pub fn apply_cfg(
    cfg: &str,
    frontend: &mut OptionList,
    core: &mut OptionList,
    mapping: &mut Vec<ButtonMapping>,
    shortcuts: &mut Vec<Shortcut>,
    gamepad_type: &mut u32,
)
    ensures
        applies_cfg(*old(frontend), *final(frontend), cfg@),
        applies_cfg(*old(core), *final(core), cfg@),
        *final(gamepad_type) == match cfg_lookup(cfg@, "minarch_gamepad_type"@) {
            Some((v, _)) => match parsed_uint(v) {
                Some(n) => if n <= u32::MAX {
                    n as u32
                } else {
                    *old(gamepad_type)
                },
                None => *old(gamepad_type),
            },
            None => *old(gamepad_type),
        },
        final(mapping)@.len() == old(mapping)@.len(),
        forall|i: int|
            0 <= i < old(mapping)@.len() ==> applied_mapping(
                old(mapping)@[i],
                #[trigger] final(mapping)@[i],
                cfg@,
            ),
        final(shortcuts)@.len() == old(shortcuts)@.len(),
        forall|i: int|
            0 <= i < old(shortcuts)@.len() ==> applied_shortcut(
                old(shortcuts)@[i],
                #[trigger] final(shortcuts)@[i],
                cfg@,
            ),
{
    apply_options(frontend, cfg);
    proof {
        reveal_strlit("minarch_gamepad_type");
    }
    match get_cfg_value(cfg, "minarch_gamepad_type") {
        Some(c) => {
            let v = chars_of(c.value.as_str());
            assert(v@.subrange(0, v@.len() as int) =~= v@);
            match parse_u32(&v, 0, v.len()) {
                Some(n) => {
                    *gamepad_type = n;
                },
                None => {},
            }
        },
        None => {},
    }
    apply_options(core, cfg);
    let ghost before_m = mapping@;
    let mut i: usize = 0;
    while i < mapping.len()
        invariant
            0 <= i <= mapping@.len(),
            mapping@.len() == before_m.len(),
            forall|j: int|
                0 <= j < before_m.len() ==> if j < i {
                    applied_mapping(before_m[j], #[trigger] mapping@[j], cfg@)
                } else {
                    mapping@[j] == before_m[j]
                },
        decreases before_m.len() - i,
    {
        let key = bind_key_of(&mapping[i].name);
        match get_cfg_value(cfg, key.as_str()) {
            Some(c) => {
                let v = chars_of(c.value.as_str());
                let label = match find_char(&v, 0, ':') {
                    Some(k) => {
                        assert(v@.skip(0) =~= v@);
                        proof {
                            lemma_first_index_of(v@, ':');
                        }
                        let t = sub_chars(&v, 0, k);
                        assert(t@ =~= v@.take(k as int));
                        t
                    },
                    None => {
                        assert(v@.skip(0) =~= v@);
                        v
                    },
                };
                let text = crate::common::text::string_of(&label, 0, label.len());
                assert(label@.subrange(0, label@.len() as int) =~= label@);
                match parse_bind_button(text.as_str()) {
                    Some((local, mod_)) => {
                        let mut m = copy_mapping(&mapping[i]);
                        m.local = local;
                        m.mod_ = mod_;
                        mapping.set(i, m);
                    },
                    None => {},
                }
            },
            None => {},
        }
        i = i + 1;
    }
    let ghost before_s = shortcuts@;
    let mut i: usize = 0;
    while i < shortcuts.len()
        invariant
            0 <= i <= shortcuts@.len(),
            shortcuts@.len() == before_s.len(),
            forall|j: int|
                0 <= j < before_s.len() ==> if j < i {
                    applied_shortcut(before_s[j], #[trigger] shortcuts@[j], cfg@)
                } else {
                    shortcuts@[j] == before_s[j]
                },
        decreases before_s.len() - i,
    {
        let key = bind_key_of(&shortcuts[i].name);
        match get_cfg_value(cfg, key.as_str()) {
            Some(c) => {
                match parse_bind_button(c.value.as_str()) {
                    Some((local, mod_)) => {
                        let name = shortcuts[i].name.clone();
                        shortcuts.set(i, Shortcut { name, local, mod_ });
                    },
                    None => {},
                }
            },
            None => {},
        }
        i = i + 1;
    }
}

/// One value of a core option definition and its label, if any.
pub struct CoreOptionValue {
    /// The value.
    pub value: String,
    /// Its display label.
    pub label: Option<String>,
}

/// The value strings of a definition.
pub open spec fn definition_values(vs: Seq<CoreOptionValue>) -> Seq<Seq<char>> {
    vs.map_values(|v: CoreOptionValue| v.value@)
}

/// The labels of a definition: a missing label shows the value.
pub open spec fn definition_labels(vs: Seq<CoreOptionValue>) -> Seq<Seq<char>> {
    vs.map_values(
        |v: CoreOptionValue|
            match v.label {
                Some(l) => l@,
                None => v.value@,
            },
    )
}

/// Index of the first entry equal to `v` in a list of texts, or -1.
pub open spec fn text_index_from(vs: Seq<Seq<char>>, v: Seq<char>, i: int) -> int
    decreases vs.len() - i,
{
    if i < 0 || i >= vs.len() {
        -1
    } else if vs[i] == v {
        i
    } else {
        text_index_from(vs, v, i + 1)
    }
}

/// An option built from a core option definition: the key's display
/// name, the values and labels, the default's index (0 when no value
/// matches), the description if any, unlocked and at its default.
pub open spec fn is_definition_option(
    o: ConfigOption,
    key: Seq<char>,
    desc: Seq<char>,
    info: Option<Seq<char>>,
    values: Seq<CoreOptionValue>,
    default_value: Seq<char>,
) -> bool {
    let d = text_index_from(definition_values(values), default_value, 0);
    let di: int = if d >= 0 { d } else { 0 };
    &&& o.key@ == key
    &&& o.name@ == name_for_key(key, desc)
    &&& match info {
        Some(t) => (o.desc matches Some(x) && x@ == t) && (o.full matches Some(y) && y@ == t),
        None => o.desc is None && o.full is None,
    }
    &&& o.default_value == di
    &&& o.value == di
    &&& o.count == values.len()
    &&& !o.lock
    &&& strings_are(o.values@, definition_values(values))
    &&& strings_are(o.labels@, definition_labels(values))
}

/// Builds an option from a core option definition.
pub fn option_from_definition(
    key: &str,
    desc: &str,
    info: Option<&str>,
    values: &[CoreOptionValue],
    default_value: &str,
) -> (o: ConfigOption)
    ensures
        is_definition_option(
            o,
            key@,
            desc@,
            match info {
                Some(t) => Some(t@),
                None => None,
            },
            values@,
            default_value@,
        ),
{
    let name = String::from_str(get_option_name_from_key(key, desc));
    let mut vals: Vec<String> = Vec::new();
    let mut labels: Vec<String> = Vec::new();
    let mut default_index: usize = 0;
    let mut found = false;
    let ghost texts = definition_values(values@);
    let mut i: usize = 0;
    while i < values.len()
        invariant
            0 <= i <= values@.len(),
            texts == definition_values(values@),
            vals@.len() == i,
            labels@.len() == i,
            forall|k: int| 0 <= k < i ==> (#[trigger] vals@[k])@ == texts[k],
            forall|k: int| 0 <= k < i ==> (#[trigger] labels@[k])@ == definition_labels(values@)[k],
            found ==> default_index < i && text_index_from(texts, default_value@, 0)
                == default_index,
            !found ==> default_index == 0,
            !found ==> text_index_from(texts, default_value@, 0) == text_index_from(
                texts,
                default_value@,
                i as int,
            ),
        decreases values@.len() - i,
    {
        let v = &values[i];
        assert(texts[i as int] == values@[i as int].value@);
        if !found && string_is(&v.value, default_value) {
            found = true;
            default_index = i;
            assert(text_index_from(texts, default_value@, i as int) == i);
        } else if !found {
            assert(text_index_from(texts, default_value@, i as int) == text_index_from(
                texts,
                default_value@,
                i + 1,
            ));
        }
        vals.push(v.value.clone());
        match &v.label {
            Some(l) => labels.push(l.clone()),
            None => labels.push(v.value.clone()),
        }
        i = i + 1;
    }
    proof {
        if !found {
            assert(text_index_from(texts, default_value@, values@.len() as int) == -1);
        }
    }
    let d = match info {
        Some(t) => Some(String::from_str(t)),
        None => None,
    };
    let f = match info {
        Some(t) => Some(String::from_str(t)),
        None => None,
    };
    let count = vals.len();
    let o = ConfigOption {
        key: String::from_str(key),
        name,
        desc: d,
        full: f,
        default_value: default_index,
        value: default_index,
        count,
        lock: false,
        values: vals,
        labels,
    };
    assert(strings_are(o.values@, definition_values(values@)));
    assert(strings_are(o.labels@, definition_labels(values@)));
    assert(o.name@ == name_for_key(key@, desc@));
    assert(o.count == values@.len());
    proof {
        let dd = text_index_from(definition_values(values@), default_value@, 0);
        assert(o.default_value as int == (if dd >= 0 { dd } else { 0 }));
        match info {
            Some(t) => {
                assert(o.desc matches Some(x) && x@ == t@);
            },
            None => {},
        }
    }
    o
}

/// The pieces of `s` between `|` characters (at least one piece).
pub open spec fn split_bars(s: Seq<char>) -> Seq<Seq<char>>
    decreases s.len(),
{
    let k = first_index_of(s, '|');
    if k < 0 {
        seq![s]
    } else {
        proof {
            lemma_first_index_of(s, '|');
        }
        seq![s.take(k)] + split_bars(s.skip(k + 1))
    }
}

/// Where a core variable's values start and its display name: the text
/// before `"; "` names it; otherwise the key does, and the values start at
/// the `;` (or at the beginning when there is none).
pub open spec fn variable_layout(raw: Seq<char>, key: Seq<char>) -> (Seq<char>, int) {
    let p = first_index_of(raw, ';');
    if p >= 0 && p + 1 < raw.len() && raw[p + 1] == ' ' {
        (raw.take(p), p + 2)
    } else if p >= 0 {
        (key, p)
    } else {
        (key, 0)
    }
}

/// An option built from a core variable `"Name; v1|v2|..."`: the values
/// are the `|`-separated pieces after the name, the labels the same, and
/// it starts at the first value.
pub open spec fn is_variable_option(o: ConfigOption, key: Seq<char>, raw: Seq<char>) -> bool {
    let (name, start) = variable_layout(raw, key);
    let values = split_bars(raw.skip(start));
    &&& o.key@ == key
    &&& o.name@ == name
    &&& o.desc is None
    &&& o.full is None
    &&& o.default_value == 0
    &&& o.value == 0
    &&& o.count == values.len()
    &&& !o.lock
    &&& strings_are(o.values@, values)
    &&& strings_are(o.labels@, values)
}

/// The pieces of `v[lo..]` between `|` characters.
pub(crate) fn split_bars_of(v: &Vec<char>, lo: usize) -> (r: Vec<String>)
    requires
        lo <= v@.len(),
    ensures
        strings_are(r@, split_bars(v@.skip(lo as int))),
    decreases v@.len() - lo,
{
    proof {
        lemma_first_index_of(v@.skip(lo as int), '|');
    }
    assert(v@.len() == v.len());
    match find_char(v, lo, '|') {
        Some(k) => {
            let piece = crate::common::text::string_of(v, lo, lo + k);
            let rest = split_bars_of(v, lo + k + 1);
            assert(v@.skip(lo as int).take(k as int) =~= v@.subrange(lo as int, lo + k));
            assert(v@.skip(lo as int).skip(k + 1) =~= v@.skip(lo + k + 1));
            let mut r: Vec<String> = Vec::new();
            r.push(piece);
            let mut j: usize = 0;
            let ghost whole = split_bars(v@.skip(lo as int));
            while j < rest.len()
                invariant
                    0 <= j <= rest@.len(),
                    r@.len() == j + 1,
                    lo + k < v@.len(),
                    r@[0]@ == v@.subrange(lo as int, lo + k),
                    forall|t: int| 1 <= t <= j ==> (#[trigger] r@[t])@ == rest@[t - 1]@,
                decreases rest@.len() - j,
            {
                r.push(rest[j].clone());
                j = j + 1;
            }
            assert(strings_are(r@, whole)) by {
                assert(whole == seq![v@.subrange(lo as int, lo + k)] + split_bars(v@.skip(lo + k + 1)));
                assert forall|t: int| 0 <= t < r@.len() implies (#[trigger] r@[t])@ == whole[t] by {
                    if t > 0 {
                        assert(r@[t]@ == rest@[t - 1]@);
                    }
                }
            }
            r
        },
        None => {
            let mut r: Vec<String> = Vec::new();
            r.push(crate::common::text::string_of(v, lo, v.len()));
            assert(v@.subrange(lo as int, v@.len() as int) =~= v@.skip(lo as int));
            r
        },
    }
}

/// Builds an option from a core variable (`"Name; v1|v2|..."`).
pub fn option_from_variable(key: &str, raw: &str) -> (o: ConfigOption)
    ensures
        is_variable_option(o, key@, raw@),
{
    let v = chars_of(raw);
    assert(v@.skip(0) =~= v@);
    proof {
        lemma_first_index_of(v@, ';');
    }
    let (name, start) = match find_char(&v, 0, ';') {
        Some(p) => {
            if p < v.len() - 1 && v[p + 1] == ' ' {
                let n = crate::common::text::string_of(&v, 0, p);
                assert(v@.subrange(0, p as int) =~= v@.take(p as int));
                (n, p + 2)
            } else {
                (String::from_str(key), p)
            }
        },
        None => (String::from_str(key), 0),
    };
    let values = split_bars_of(&v, start);
    let labels = split_bars_of(&v, start);
    let count = values.len();
    ConfigOption {
        key: String::from_str(key),
        name,
        desc: None,
        full: None,
        default_value: 0,
        value: 0,
        count,
        lock: false,
        values,
        labels,
    }
}

} // verus!
