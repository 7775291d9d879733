//! Persistent user configuration.
//!
//! Stored as a minimal hand-parsed TOML-ish text file at
//!   %APPDATA%\loupe\config.toml
//! so users can inspect or reset it with any text editor. The file I/O lives
//! in the application; this module holds the text format.
//!
//! Current keys:
//!   hotkey_mods = <u32>   HOT_KEY_MODIFIERS raw value
//!   hotkey_vkey = <u32>   virtual-key code
use vstd::prelude::*;
use vstd::string::StringExecFns;

use crate::text::{
    all_digits, chars_of, decimal_digits, is_digit, is_whitespace, lemma_decimal_round_trip, parse_u32, parse_u32_range, push_decimal, range_starts_with, starts_with,
    trim, trim_end, trim_range, trim_start,
};

verus! {

/// A saved hotkey binding.
#[derive(Clone, Copy, Debug, PartialEq, Eq, Structural)]
pub struct HotkeyConfig {
    pub mods: u32,
    pub vkey: u32,
}

/// The two settings seen so far while reading the file.
pub type ConfigScan = (Option<u32>, Option<u32>);

/// The key that sets the modifiers.
pub open spec fn mods_key() -> Seq<char> {
    "hotkey_mods"@
}

/// The key that sets the virtual-key code.
pub open spec fn vkey_key() -> Seq<char> {
    "hotkey_vkey"@
}

/// `v.trim_start_matches([' ', '='])`.
pub open spec fn trim_start_space_eq(s: Seq<char>) -> Seq<char>
    decreases s.len(),
{
    if s.len() > 0 && (s[0] == ' ' || s[0] == '=') {
        trim_start_space_eq(s.drop_first())
    } else {
        s
    }
}

/// The value of a setting line, given what follows its key.
pub open spec fn setting_value(rest: Seq<char>) -> Option<u32> {
    parse_u32(trim(trim_start_space_eq(rest)))
}

/// The effect of one line of the file. Blank lines and `#` comments change
/// nothing; a `hotkey_mods` or `hotkey_vkey` line replaces that setting with
/// its value, or with nothing when the value does not parse; other lines are
/// ignored.
pub open spec fn apply_line(st: ConfigScan, raw: Seq<char>) -> ConfigScan {
    let line = trim(raw);
    if line.len() == 0 || line[0] == '#' {
        st
    } else if starts_with(line, mods_key()) {
        (setting_value(line.skip(11)), st.1)
    } else if starts_with(line, vkey_key()) {
        (st.0, setting_value(line.skip(11)))
    } else {
        st
    }
}

/// Index of the first `'\n'` in `s`, or its length.
pub open spec fn first_newline(s: Seq<char>) -> nat
    decreases s.len(),
{
    if s.len() == 0 || s[0] == '\n' {
        0
    } else {
        1 + first_newline(s.drop_first())
    }
}

pub proof fn lemma_first_newline_bound(s: Seq<char>)
    ensures
        first_newline(s) <= s.len(),
        first_newline(s) < s.len() ==> s[first_newline(s) as int] == '\n',
        forall|j: int| 0 <= j < first_newline(s) ==> s[j] != '\n',
    decreases s.len(),
{
    if s.len() > 0 && s[0] != '\n' {
        lemma_first_newline_bound(s.drop_first());
        assert forall|j: int| 0 <= j < first_newline(s) implies s[j] != '\n' by {
            if j > 0 {
                assert(s[j] == s.drop_first()[j - 1]);
            }
        }
    }
}

/// Applies the lines of `s` (separated by `'\n'`) in order, starting from `st`.
pub open spec fn scan_lines(st: ConfigScan, s: Seq<char>) -> ConfigScan
    decreases s.len(),
{
    let k = first_newline(s);
    let next = apply_line(st, s.take(k as int));
    if k < s.len() {
        proof {
            lemma_first_newline_bound(s);
        }
        scan_lines(next, s.skip(k + 1 as int))
    } else {
        next
    }
}

/// The hotkey that a configuration file's text holds: both settings must be
/// present, and the last line for each key decides it.
pub open spec fn config_of_text(s: Seq<char>) -> Option<HotkeyConfig> {
    let st = scan_lines((None, None), s);
    if st.0 is Some && st.1 is Some {
        Some(HotkeyConfig { mods: st.0->0, vkey: st.1->0 })
    } else {
        None
    }
}

/// First comment line of the file.
pub open spec fn header_line_1() -> Seq<char> {
    "# Loupe configuration \u{2014} edit with any text editor."@
}

/// Second comment line of the file.
pub open spec fn header_line_2() -> Seq<char> {
    "# Delete this file to reset all settings."@
}

/// The line that records the modifiers.
pub open spec fn mods_line(mods: u32) -> Seq<char> {
    "hotkey_mods = "@ + decimal_digits(mods as nat)
}

/// The line that records the virtual-key code.
pub open spec fn vkey_line(vkey: u32) -> Seq<char> {
    "hotkey_vkey = "@ + decimal_digits(vkey as nat)
}

/// The file `save_hotkey` writes for a binding: two comment lines, a blank
/// line, then one line per setting, each line ended by `'\n'`.
pub open spec fn config_text(mods: u32, vkey: u32) -> Seq<char> {
    header_line_1() + "\n"@ + header_line_2() + "\n"@ + "\n"@ + mods_line(mods) + "\n"@
        + vkey_line(vkey) + "\n"@
}

proof fn lemma_first_newline_at(s: Seq<char>, k: int)
    requires
        0 <= k <= s.len(),
        forall|j: int| 0 <= j < k ==> s[j] != '\n',
        k < s.len() ==> s[k] == '\n',
    ensures
        first_newline(s) == k,
    decreases s.len(),
{
    if k > 0 {
        assert forall|j: int| 0 <= j < k - 1 implies s.drop_first()[j] != '\n' by {
            assert(s[j + 1] != '\n');
        }
        lemma_first_newline_at(s.drop_first(), k - 1);
    }
}

/// `v[lo..hi]` with leading spaces and `=` signs removed: its start index.
fn skip_space_eq(v: &Vec<char>, lo: usize, hi: usize) -> (r: usize)
    requires
        lo <= hi <= v.len(),
    ensures
        lo <= r <= hi,
        v@.subrange(r as int, hi as int) == trim_start_space_eq(
            v@.subrange(lo as int, hi as int),
        ),
{
    let mut a = lo;
    while a < hi && (v[a] == ' ' || v[a] == '=')
        invariant
            lo <= a <= hi <= v.len(),
            trim_start_space_eq(v@.subrange(lo as int, hi as int)) == trim_start_space_eq(
                v@.subrange(a as int, hi as int),
            ),
        decreases hi - a,
    {
        assert(v@.subrange(a as int, hi as int).drop_first() =~= v@.subrange(
            a + 1,
            hi as int,
        ));
        a = a + 1;
    }
    a
}

/// The value of a setting whose text follows the key at `v[lo..hi]`.
fn read_setting(v: &Vec<char>, lo: usize, hi: usize) -> (r: Option<u32>)
    requires
        lo <= hi <= v.len(),
    ensures
        r == setting_value(v@.subrange(lo as int, hi as int)),
{
    let a = skip_space_eq(v, lo, hi);
    let (b, c) = trim_range(v, a, hi);
    parse_u32_range(v, b, c)
}

/// Applies one line `v[lo..hi]` to the settings read so far.
fn read_line(
    v: &Vec<char>,
    lo: usize,
    hi: usize,
    mods_word: &Vec<char>,
    vkey_word: &Vec<char>,
    st: ConfigScan,
) -> (r: ConfigScan)
    requires
        lo <= hi <= v.len(),
        mods_word@ == mods_key(),
        vkey_word@ == vkey_key(),
    ensures
        r == apply_line(st, v@.subrange(lo as int, hi as int)),
{
    proof {
        reveal_strlit("hotkey_mods");
        reveal_strlit("hotkey_vkey");
    }
    let (a, b) = trim_range(v, lo, hi);
    let ghost line = v@.subrange(a as int, b as int);
    if a == b || v[a] == '#' {
        return st;
    }
    assert(line[0] == v@[a as int]);
    if range_starts_with(v, a, b, mods_word) {
        assert(line.skip(11) =~= v@.subrange(a + 11, b as int));
        (read_setting(v, a + 11, b), st.1)
    } else if range_starts_with(v, a, b, vkey_word) {
        assert(line.skip(11) =~= v@.subrange(a + 11, b as int));
        (st.0, read_setting(v, a + 11, b))
    } else {
        st
    }
}

/// Read a configuration file's text and return the saved hotkey, if any.
/// Returns `None` on a parse error or incomplete data.
pub fn parse_hotkey_config(text: &str) -> (r: Option<HotkeyConfig>)
    ensures
        r == config_of_text(text@),
{
    let v = chars_of(text);
    let mods_word = chars_of("hotkey_mods");
    let vkey_word = chars_of("hotkey_vkey");
    let n = v.len();
    let mut mods: Option<u32> = None;
    let mut vkey: Option<u32> = None;
    let mut start: usize = 0;
    assert(v@.subrange(0, n as int) =~= v@);
    loop
        invariant_except_break
            0 <= start <= n == v.len(),
            v@ == text@,
            mods_word@ == mods_key(),
            vkey_word@ == vkey_key(),
            scan_lines((None, None), v@) == scan_lines(
                (mods, vkey),
                v@.subrange(start as int, n as int),
            ),
        ensures
            scan_lines((None, None), v@) == (mods, vkey),
            v@ == text@,
        decreases n - start,
    {
        let mut end = start;
        while end < n && v[end] != '\n'
            invariant
                start <= end <= n == v.len(),
                forall|j: int| start <= j < end ==> v@[j] != '\n',
            decreases n - end,
        {
            end = end + 1;
        }
        let ghost rest = v@.subrange(start as int, n as int);
        proof {
            lemma_first_newline_at(rest, end - start);
            assert(rest.take(end - start) =~= v@.subrange(start as int, end as int));
        }
        let (m2, k2) = read_line(&v, start, end, &mods_word, &vkey_word, (mods, vkey));
        mods = m2;
        vkey = k2;
        if end == n {
            break;
        }
        assert(rest.skip(end - start + 1) =~= v@.subrange(end + 1, n as int));
        start = end + 1;
    }
    match (mods, vkey) {
        (Some(m), Some(k)) => Some(HotkeyConfig { mods: m, vkey: k }),
        _ => None,
    }
}

/// The text of the configuration file for a hotkey binding (what
/// `save_hotkey` writes).
pub fn format_hotkey_config(mods: u32, vkey: u32) -> (r: String)
    ensures
        r@ == config_text(mods, vkey),
{
    let mut s = String::from_str("# Loupe configuration \u{2014} edit with any text editor.");
    s.append("\n");
    s.append("# Delete this file to reset all settings.");
    s.append("\n");
    s.append("\n");
    s.append("hotkey_mods = ");
    push_decimal(&mut s, mods);
    s.append("\n");
    s.append("hotkey_vkey = ");
    push_decimal(&mut s, vkey);
    s.append("\n");
    assert(s@ =~= config_text(mods, vkey));
    s
}

proof fn lemma_trim_unchanged(s: Seq<char>)
    requires
        s.len() > 0,
        !is_whitespace(s[0]),
        !is_whitespace(s.last()),
    ensures
        trim(s) == s,
{
}

proof fn lemma_scan_line(st: ConfigScan, line: Seq<char>, rest: Seq<char>)
    requires
        forall|j: int| 0 <= j < line.len() ==> line[j] != '\n',
    ensures
        scan_lines(st, line + seq!['\n'] + rest) == scan_lines(apply_line(st, line), rest),
{
    let s = line + seq!['\n'] + rest;
    lemma_first_newline_at(s, line.len() as int);
    assert(s.take(line.len() as int) =~= line);
    assert(s.skip(line.len() + 1int) =~= rest);
}

proof fn lemma_scan_empty(st: ConfigScan)
    ensures
        scan_lines(st, Seq::empty()) == st,
{
    assert(Seq::<char>::empty().take(0) =~= Seq::<char>::empty());
    assert(trim(Seq::<char>::empty()) =~= Seq::<char>::empty());
}

proof fn lemma_setting_line(key: Seq<char>, n: u32, st: ConfigScan)
    requires
        key.len() == 11,
        forall|j: int| 0 <= j < 11 ==> key[j] != '\n',
        key[0] == 'h',
    ensures
        ({
            let line = key + " = "@ + decimal_digits(n as nat);
            &&& trim(line) == line
            &&& line.len() > 0 && line[0] != '#'
            &&& line.take(11) == key
            &&& setting_value(line.skip(11)) == Some(n)
            &&& forall|j: int| 0 <= j < line.len() ==> line[j] != '\n'
        }),
{
    reveal_strlit(" = ");
    let d = decimal_digits(n as nat);
    lemma_decimal_round_trip(n);
    let line = key + " = "@ + d;
    assert(line[0] == 'h');
    assert(line.last() == d.last());
    assert(is_digit(d[d.len() - 1]));
    lemma_trim_unchanged(line);
    assert(line.take(11) =~= key);
    let rest = line.skip(11);
    assert(rest =~= " = "@ + d);
    assert(is_digit(d[0]));
    let r1 = rest.drop_first();
    let r2 = r1.drop_first();
    let r3 = r2.drop_first();
    assert(r3 =~= d);
    assert(rest[0] == ' ' && r1[0] == '=' && r2[0] == ' ');
    assert(trim_start_space_eq(r3) == d);
    assert(trim_start_space_eq(r2) == trim_start_space_eq(r3));
    assert(trim_start_space_eq(r1) == trim_start_space_eq(r2));
    assert(trim_start_space_eq(rest) == d);
    lemma_trim_unchanged(d);
    assert forall|j: int| 0 <= j < line.len() implies line[j] != '\n' by {
        if j >= 14 {
            assert(line[j] == d[j - 14]);
            assert(is_digit(d[j - 14]));
        }
    }
}

/// What `format_hotkey_config` writes, `parse_hotkey_config` reads back: a
/// saved binding is restored exactly on the next launch.
pub proof fn lemma_config_round_trip(mods: u32, vkey: u32)
    ensures
        config_of_text(config_text(mods, vkey)) == Some(HotkeyConfig { mods, vkey }),
{
    reveal_strlit("\n");
    reveal_strlit("# Loupe configuration \u{2014} edit with any text editor.");
    reveal_strlit("# Delete this file to reset all settings.");
    reveal_strlit("hotkey_mods = ");
    reveal_strlit("hotkey_vkey = ");
    reveal_strlit("hotkey_mods");
    reveal_strlit("hotkey_vkey");
    reveal_strlit(" = ");
    let nl = "\n"@;
    assert(nl =~= seq!['\n']);
    let h1 = header_line_1();
    let h2 = header_line_2();
    let m = mods_line(mods);
    let k = vkey_line(vkey);
    assert("hotkey_mods = "@ =~= "hotkey_mods"@ + " = "@);
    assert("hotkey_vkey = "@ =~= "hotkey_vkey"@ + " = "@);
    assert(m =~= mods_key() + " = "@ + decimal_digits(mods as nat));
    assert(k =~= vkey_key() + " = "@ + decimal_digits(vkey as nat));
    lemma_setting_line(mods_key(), mods, (None, None));
    lemma_setting_line(vkey_key(), vkey, (None, None));
    // The comment lines change nothing.
    assert(forall|j: int| 0 <= j < h1.len() ==> h1[j] != '\n');
    assert(forall|j: int| 0 <= j < h2.len() ==> h2[j] != '\n');
    lemma_trim_unchanged(h1);
    lemma_trim_unchanged(h2);
    let st0: ConfigScan = (None, None);
    assert(apply_line(st0, h1) == st0);
    assert(apply_line(st0, h2) == st0);
    assert(trim(Seq::<char>::empty()) =~= Seq::<char>::empty());
    assert(apply_line(st0, Seq::empty()) == st0);
    let st1: ConfigScan = (Some(mods), None);
    assert(apply_line(st0, m) == st1);
    assert(!starts_with(k, mods_key())) by {
        assert(k.take(11)[7] != mods_key()[7]);
    }
    let st2: ConfigScan = (Some(mods), Some(vkey));
    assert(apply_line(st1, k) == st2);
    // Peel the file one line at a time.
    let t = config_text(mods, vkey);
    let r4 = k + seq!['\n'] + Seq::<char>::empty();
    let r3 = m + seq!['\n'] + r4;
    let r2 = Seq::<char>::empty() + seq!['\n'] + r3;
    let r1 = h2 + seq!['\n'] + r2;
    assert(t =~= h1 + seq!['\n'] + r1);
    lemma_scan_line(st0, h1, r1);
    lemma_scan_line(st0, h2, r2);
    lemma_scan_line(st0, Seq::empty(), r3);
    lemma_scan_line(st0, m, r4);
    lemma_scan_line(st1, k, Seq::empty());
    lemma_scan_empty(st2);
}

/// Whether a line sets the virtual-key code (its trimmed text begins with
/// `hotkey_vkey`).
pub open spec fn is_vkey_line(raw: Seq<char>) -> bool {
    starts_with(trim(raw), vkey_key())
}

/// Whether a line sets the modifiers (its trimmed text begins with
/// `hotkey_mods`).
pub open spec fn is_mods_line(raw: Seq<char>) -> bool {
    starts_with(trim(raw), mods_key())
}

/// Each setting line acts on its own setting alone: a `hotkey_vkey` line
/// leaves the modifiers read so far untouched and sets the key code to the
/// same value whatever was read before it, and a `hotkey_mods` line does the
/// same the other way round.
pub proof fn lemma_setting_lines_independent(st1: ConfigScan, st2: ConfigScan, raw: Seq<char>)
    ensures
        is_vkey_line(raw) ==> apply_line(st1, raw).0 == st1.0 && apply_line(st1, raw).1
            == apply_line(st2, raw).1,
        is_mods_line(raw) ==> apply_line(st1, raw).1 == st1.1 && apply_line(st1, raw).0
            == apply_line(st2, raw).0,
{
    reveal_strlit("hotkey_mods");
    reveal_strlit("hotkey_vkey");
    let line = trim(raw);
    if is_vkey_line(raw) {
        assert(line.take(11)[0] == 'h');
        assert(line[0] == 'h');
        assert(!starts_with(line, mods_key())) by {
            assert(line.take(11)[7] == 'v');
        }
    }
    if is_mods_line(raw) {
        assert(line.take(11)[0] == 'h');
        assert(line[0] == 'h');
    }
}

/// The order of the two setting lines does not matter: a file that records
/// the key code first and the modifiers second reads back the same binding
/// as one in the other order.
pub proof fn lemma_config_order_free(mods: u32, vkey: u32)
    ensures
        config_of_text(vkey_line(vkey) + "\n"@ + mods_line(mods) + "\n"@) == Some(
            HotkeyConfig { mods, vkey },
        ),
        config_of_text(mods_line(mods) + "\n"@ + vkey_line(vkey) + "\n"@) == Some(
            HotkeyConfig { mods, vkey },
        ),
{
    reveal_strlit("\n");
    reveal_strlit("hotkey_mods = ");
    reveal_strlit("hotkey_vkey = ");
    reveal_strlit("hotkey_mods");
    reveal_strlit("hotkey_vkey");
    reveal_strlit(" = ");
    assert("\n"@ =~= seq!['\n']);
    let m = mods_line(mods);
    let k = vkey_line(vkey);
    assert("hotkey_mods = "@ =~= "hotkey_mods"@ + " = "@);
    assert("hotkey_vkey = "@ =~= "hotkey_vkey"@ + " = "@);
    assert(m =~= mods_key() + " = "@ + decimal_digits(mods as nat));
    assert(k =~= vkey_key() + " = "@ + decimal_digits(vkey as nat));
    lemma_setting_line(mods_key(), mods, (None, None));
    lemma_setting_line(vkey_key(), vkey, (None, None));
    assert(!starts_with(k, mods_key())) by {
        assert(k.take(11)[7] != mods_key()[7]);
    }
    let st0: ConfigScan = (None, None);
    let both: ConfigScan = (Some(mods), Some(vkey));
    // Key code first, then modifiers.
    let a1 = k + seq!['\n'] + (m + seq!['\n'] + Seq::<char>::empty());
    assert(vkey_line(vkey) + "\n"@ + mods_line(mods) + "\n"@ =~= a1);
    assert(apply_line(st0, k) == (None::<u32>, Some(vkey)));
    assert(apply_line((None, Some(vkey)), m) == both);
    lemma_scan_line(st0, k, m + seq!['\n'] + Seq::<char>::empty());
    lemma_scan_line((None, Some(vkey)), m, Seq::empty());
    lemma_scan_empty(both);
    // Modifiers first, then key code.
    let a2 = m + seq!['\n'] + (k + seq!['\n'] + Seq::<char>::empty());
    assert(mods_line(mods) + "\n"@ + vkey_line(vkey) + "\n"@ =~= a2);
    assert(apply_line(st0, m) == (Some(mods), None::<u32>));
    assert(apply_line((Some(mods), None), k) == both);
    lemma_scan_line(st0, m, k + seq!['\n'] + Seq::<char>::empty());
    lemma_scan_line((Some(mods), None), k, Seq::empty());
}

} // verus!
