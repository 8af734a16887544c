//! The configuration file's text: comments, lines, sections and values.

use vstd::prelude::*;
use vstd::string::*;
use crate::text::{
    chars_of, str_eq, join2, trim_bounds, string_of_range, decimal_string, debug_quoted, spec_trim,
    spec_decimal, str_debug,
};
use crate::intparse::{IntErrorKind, spec_parse_int, int_error_text, int_error_message, parse_int_range};

verus! {

broadcast use vstd::string::group_string_axioms;

/// Which touches count for drag haptics.
#[derive(Clone, Copy, Debug, PartialEq, Eq, Structural)]
pub enum DragMode {
    Any,
    Scroll,
}

/// The name of a drag mode.
pub open spec fn spec_drag_mode_name(m: DragMode) -> Seq<char> {
    match m {
        DragMode::Any => "any"@,
        DragMode::Scroll => "scroll"@,
    }
}

impl DragMode {
    /// Reads a drag mode: `any` or `scroll`.
    pub fn parse(value: &str) -> (r: Result<DragMode, String>)
        ensures
            value@ == "any"@ ==> r == Ok::<DragMode, String>(DragMode::Any),
            value@ == "scroll"@ ==> r == Ok::<DragMode, String>(DragMode::Scroll),
            value@ != "any"@ && value@ != "scroll"@ ==> (r matches Err(e) && e@
                == "drag_haptics.mode must be 'any' or 'scroll'"@),
    {
        proof {
            reveal_strlit("any");
            reveal_strlit("scroll");
            assert("any"@.len() == 3);
            assert("scroll"@.len() == 6);
        }
        if str_eq(value, "any") {
            Ok(DragMode::Any)
        } else if str_eq(value, "scroll") {
            Ok(DragMode::Scroll)
        } else {
            Err("drag_haptics.mode must be 'any' or 'scroll'".to_owned())
        }
    }

    /// The name of the drag mode.
    pub fn as_str(self) -> (s: &'static str)
        ensures
            s@ == spec_drag_mode_name(self),
    {
        match self {
            DragMode::Any => "any",
            DragMode::Scroll => "scroll",
        }
    }
}

/// Where a comment starts in `s`, scanning from `i` in the given quoting
/// state: the first `#` outside a double-quoted string (a backslash escapes
/// the next character inside one), or the length when there is none.
pub open spec fn comment_start(s: Seq<char>, i: int, in_string: bool, escaped: bool) -> int
    decreases s.len() - i,
{
    if i >= s.len() || i < 0 {
        s.len() as int
    } else {
        let c = s[i];
        if in_string {
            if escaped {
                comment_start(s, i + 1, true, false)
            } else if c == '\\' {
                comment_start(s, i + 1, true, true)
            } else if c == '"' {
                comment_start(s, i + 1, false, false)
            } else {
                comment_start(s, i + 1, true, false)
            }
        } else if c == '"' {
            comment_start(s, i + 1, true, false)
        } else if c == '#' {
            i
        } else {
            comment_start(s, i + 1, false, escaped)
        }
    }
}

proof fn lemma_comment_start_bounds(s: Seq<char>, i: int, in_string: bool, escaped: bool)
    requires
        0 <= i <= s.len(),
    ensures
        i <= comment_start(s, i, in_string, escaped) <= s.len(),
    decreases s.len() - i,
{
    if i < s.len() {
        lemma_comment_start_bounds(s, i + 1, true, false);
        lemma_comment_start_bounds(s, i + 1, true, true);
        lemma_comment_start_bounds(s, i + 1, false, false);
        lemma_comment_start_bounds(s, i + 1, false, escaped);
    }
}

/// The position where the comment of a line starts (the line's length when
/// it has none).
pub fn comment_position(chars: &Vec<char>) -> (k: usize)
    ensures
        k as int == comment_start(chars@, 0, false, false),
        k <= chars@.len(),
{
    let mut in_string = false;
    let mut escaped = false;
    let mut i: usize = 0;
    proof {
        lemma_comment_start_bounds(chars@, 0, false, false);
    }
    while i < chars.len()
        invariant
            i <= chars@.len(),
            escaped ==> in_string,
            comment_start(chars@, 0, false, false) == comment_start(chars@, i as int, in_string, escaped),
        decreases chars@.len() - i,
    {
        let ch = chars[i];
        let ghost in0 = in_string;
        let ghost e0 = escaped;
        if in_string {
            if escaped {
                escaped = false;
            } else if ch == '\\' {
                escaped = true;
            } else if ch == '"' {
                in_string = false;
            }
        } else if ch == '"' {
            in_string = true;
        } else if ch == '#' {
            return i;
        }
        assert(comment_start(chars@, i as int, in0, e0) == comment_start(chars@, i + 1, in_string, escaped));
        i = i + 1;
    }
    i
}

/// The line without its comment: everything before the first `#` that is
/// not inside a double-quoted string.
pub fn strip_comment(line: &str) -> (r: &str)
    ensures
        r@ == line@.subrange(0, comment_start(line@, 0, false, false)),
{
    let chars = chars_of(line);
    let k = comment_position(&chars);
    line.substring_char(0, k)
}

/// A configuration value, as it is written.
#[derive(Clone, Debug)]
pub enum ConfigValue {
    Bool(bool),
    Int(i64),
    /// A number written with `.`, `e` or `E`; its text is kept as written
    /// and read as a floating-point number by the caller.
    Float(String),
    String(String),
}

/// The mathematical view of a configuration value.
pub ghost enum ConfigValueView {
    Bool(bool),
    Int(int),
    Float(Seq<char>),
    String(Seq<char>),
}

impl View for ConfigValue {
    type V = ConfigValueView;

    open spec fn view(&self) -> ConfigValueView {
        match self {
            ConfigValue::Bool(b) => ConfigValueView::Bool(*b),
            ConfigValue::Int(i) => ConfigValueView::Int(*i as int),
            ConfigValue::Float(s) => ConfigValueView::Float(s@),
            ConfigValue::String(s) => ConfigValueView::String(s@),
        }
    }
}

/// Whether the text holds one of the characters.
pub open spec fn has_float_marker(s: Seq<char>) -> bool {
    s.contains('.') || s.contains('e') || s.contains('E')
}

/// What a value text denotes, after trimming: a double-quoted string;
/// `true` or `false`; a floating-point number when it holds `.`, `e` or
/// `E`; a hexadecimal integer after `0x`; otherwise a decimal integer. The
/// error names the line, the trimmed text in debug quotes, and the reason.
pub open spec fn spec_parse_config_value(raw: Seq<char>, line: nat) -> Result<ConfigValueView, Seq<char>> {
    let v = spec_trim(raw);
    if v.len() >= 2 && v[0] == '"' && v.last() == '"' {
        Ok(ConfigValueView::String(v.subrange(1, v.len() - 1)))
    } else if v == "true"@ {
        Ok(ConfigValueView::Bool(true))
    } else if v == "false"@ {
        Ok(ConfigValueView::Bool(false))
    } else if has_float_marker(v) {
        Ok(ConfigValueView::Float(v))
    } else {
        let parsed = if v.len() >= 2 && v[0] == '0' && v[1] == 'x' {
            spec_parse_int(v.skip(2), 16, i64::MIN as int, i64::MAX as int)
        } else {
            spec_parse_int(v, 10, i64::MIN as int, i64::MAX as int)
        };
        match parsed {
            Ok(n) => Ok(ConfigValueView::Int(n)),
            Err(e) => Err(
                "line "@ + spec_decimal(line) + ": invalid value "@ + str_debug(v) + ": "@ + int_error_text(e),
            ),
        }
    }
}

fn contains_char(chars: &Vec<char>, from: usize, to: usize, c: char) -> (r: bool)
    requires
        from <= to <= chars@.len(),
    ensures
        r == chars@.subrange(from as int, to as int).contains(c),
{
    let mut i = from;
    while i < to
        invariant
            from <= i <= to <= chars@.len(),
            forall|j: int| from <= j < i ==> chars@[j] != c,
        decreases to - i,
    {
        if chars[i] == c {
            assert(chars@.subrange(from as int, to as int)[i - from] == c);
            return true;
        }
        i = i + 1;
    }
    assert forall|j: int| 0 <= j < to - from implies chars@.subrange(from as int, to as int)[j] != c by {
        assert(chars@[from + j] != c);
    }
    false
}

fn range_eq(chars: &Vec<char>, from: usize, to: usize, lit: &str) -> (r: bool)
    requires
        from <= to <= chars@.len(),
    ensures
        r == (chars@.subrange(from as int, to as int) == lit@),
{
    let s = string_of_range(chars, from, to);
    str_eq(s.as_str(), lit)
}

/// Reads a value text (see `spec_parse_config_value`); `line` is the line
/// number shown in an error.
pub fn parse_config_value(raw: &str, line: usize) -> (r: Result<ConfigValue, String>)
    ensures
        match (r, spec_parse_config_value(raw@, line as nat)) {
            (Ok(v), Ok(w)) => v@ == w,
            (Err(e), Err(m)) => e@ == m,
            _ => false,
        },
{
    let chars = chars_of(raw);
    let (a, b) = trim_bounds(&chars, 0, chars.len());
    let ghost v = chars@.subrange(a as int, b as int);
    assert(chars@.subrange(0, chars@.len() as int) =~= raw@);
    if b - a >= 2 && chars[a] == '"' && chars[b - 1] == '"' {
        let s = string_of_range(&chars, a + 1, b - 1);
        assert(v.subrange(1, v.len() - 1) =~= chars@.subrange(a + 1, b - 1));
        return Ok(ConfigValue::String(s));
    }
    if range_eq(&chars, a, b, "true") {
        return Ok(ConfigValue::Bool(true));
    }
    if range_eq(&chars, a, b, "false") {
        return Ok(ConfigValue::Bool(false));
    }
    if contains_char(&chars, a, b, '.') || contains_char(&chars, a, b, 'e') || contains_char(&chars, a, b, 'E') {
        return Ok(ConfigValue::Float(string_of_range(&chars, a, b)));
    }
    let hex = b - a >= 2 && chars[a] == '0' && chars[a + 1] == 'x';
    let digits = if hex {
        string_of_range(&chars, a + 2, b)
    } else {
        string_of_range(&chars, a, b)
    };
    let dchars = chars_of(digits.as_str());
    proof {
        if hex {
            assert(v.skip(2) =~= dchars@);
        } else {
            assert(v =~= dchars@);
        }
        assert(dchars@.subrange(0, dchars@.len() as int) =~= dchars@);
    }
    let parsed = parse_int_range(&dchars, 0, if hex { 16 } else { 10 }, i64::MIN, i64::MAX);
    match parsed {
        Ok(n) => Ok(ConfigValue::Int(n)),
        Err(e) => {
            let text = string_of_range(&chars, a, b);
            let quoted = debug_quoted(text.as_str());
            Err(invalid_value_message(line, quoted.as_str(), e))
        },
    }
}

/// The error text of a value that is no integer: the line number, the value
/// as `quoted` renders it, and why the integer was refused.
pub fn invalid_value_message(line: usize, quoted: &str, e: IntErrorKind) -> (m: String)
    ensures
        m@ == "line "@ + spec_decimal(line as nat) + ": invalid value "@ + quoted@ + ": "@ + int_error_text(e),
{
    let mut msg = "line ".to_owned();
    let num = decimal_string(line as u64);
    msg.append(num.as_str());
    msg.append(": invalid value ");
    msg.append(quoted);
    msg.append(": ");
    msg.append(int_error_message(e));
    msg
}

/// The error text of a value of the wrong kind under `key`.
pub open spec fn kind_error(key: Seq<char>, what: Seq<char>) -> Seq<char> {
    key + what
}

/// A boolean value, or an error naming the key.
pub fn value_bool(key: &str, value: ConfigValue) -> (r: Result<bool, String>)
    ensures
        match value@ {
            ConfigValueView::Bool(b) => r == Ok::<bool, String>(b),
            _ => r matches Err(e) && e@ == kind_error(key@, " must be a boolean"@),
        },
{
    match value {
        ConfigValue::Bool(b) => Ok(b),
        _ => Err(join2(key, " must be a boolean")),
    }
}

/// A string value, or an error naming the key.
pub fn value_string(key: &str, value: ConfigValue) -> (r: Result<String, String>)
    ensures
        match value {
            ConfigValue::String(s) => r == Ok::<String, String>(s),
            _ => r matches Err(e) && e@ == kind_error(key@, " must be a string"@),
        },
{
    match value {
        ConfigValue::String(s) => Ok(s),
        _ => Err(join2(key, " must be a string")),
    }
}

/// An integer value within `i32`, or an error naming the key.
pub fn value_i32(key: &str, value: ConfigValue) -> (r: Result<i32, String>)
    ensures
        match value@ {
            ConfigValueView::Int(i) if i32::MIN <= i <= i32::MAX => r == Ok::<i32, String>(i as i32),
            _ => r matches Err(e) && e@ == kind_error(key@, " must be a 32-bit integer"@),
        },
{
    match value {
        ConfigValue::Int(i) => {
            if i32::MIN as i64 <= i && i <= i32::MAX as i64 {
                Ok(i as i32)
            } else {
                Err(join2(key, " must be a 32-bit integer"))
            }
        },
        _ => Err(join2(key, " must be a 32-bit integer")),
    }
}

/// An integer value within `u32`, or an error naming the key.
pub fn value_u32(key: &str, value: ConfigValue) -> (r: Result<u32, String>)
    ensures
        match value@ {
            ConfigValueView::Int(i) if 0 <= i <= u32::MAX => r == Ok::<u32, String>(i as u32),
            _ => r matches Err(e) && e@ == kind_error(key@, " must be a 32-bit unsigned integer"@),
        },
{
    match value {
        ConfigValue::Int(i) => {
            if 0 <= i && i <= u32::MAX as i64 {
                Ok(i as u32)
            } else {
                Err(join2(key, " must be a 32-bit unsigned integer"))
            }
        },
        _ => Err(join2(key, " must be a 32-bit unsigned integer")),
    }
}

/// An integer value within `u8`, or an error naming the key.
pub fn value_u8(key: &str, value: ConfigValue) -> (r: Result<u8, String>)
    ensures
        match value@ {
            ConfigValueView::Int(i) if 0 <= i <= u8::MAX => r == Ok::<u8, String>(i as u8),
            _ => r matches Err(e) && e@ == kind_error(key@, " must be a byte integer"@),
        },
{
    match value {
        ConfigValue::Int(i) => {
            if 0 <= i && i <= u8::MAX as i64 {
                Ok(i as u8)
            } else {
                Err(join2(key, " must be a byte integer"))
            }
        },
        _ => Err(join2(key, " must be a byte integer")),
    }
}

/// Accepts a numeric value (an integer or a floating-point text) for a
/// floating-point setting, or gives an error naming the key.
pub fn value_number(key: &str, value: &ConfigValue) -> (r: Result<(), String>)
    ensures
        match value@ {
            ConfigValueView::Int(_) | ConfigValueView::Float(_) => r is Ok,
            _ => r matches Err(e) && e@ == kind_error(key@, " must be numeric"@),
        },
{
    match value {
        ConfigValue::Int(_) | ConfigValue::Float(_) => Ok(()),
        _ => Err(join2(key, " must be numeric")),
    }
}

/// The first position of `c` in `s` at or after `i`.
pub open spec fn find_char(s: Seq<char>, c: char, i: int) -> Option<int>
    decreases s.len() - i,
{
    if i < 0 || i >= s.len() {
        None
    } else if s[i] == c {
        Some(i)
    } else {
        find_char(s, c, i + 1)
    }
}

/// What one line of the configuration file does, given the current section:
/// after its comment is removed and it is trimmed, an empty line does
/// nothing; `[name]` makes the trimmed `name` the section; otherwise it must
/// hold `=`, and the trimmed text before the first `=` is the key (prefixed
/// by the section and a dot when there is a section) and the text after it
/// the value. The result is the section afterwards and the entry, if any.
pub open spec fn spec_parse_config_line(raw: Seq<char>, line: nat, section: Seq<char>) -> Result<
    (Seq<char>, Option<(Seq<char>, ConfigValueView)>),
    Seq<char>,
> {
    let l = spec_trim(raw.subrange(0, comment_start(raw, 0, false, false)));
    if l.len() == 0 {
        Ok((section, None))
    } else if l[0] == '[' && l.last() == ']' && l.len() >= 2 {
        Ok((spec_trim(l.subrange(1, l.len() - 1)), None))
    } else {
        match find_char(l, '=', 0) {
            None => Err("line "@ + spec_decimal(line) + ": expected key = value"@),
            Some(k) => {
                let key = spec_trim(l.subrange(0, k));
                let full_key = if section.len() == 0 { key } else { section + "."@ + key };
                match spec_parse_config_value(l.subrange(k + 1, l.len() as int), line) {
                    Ok(v) => Ok((section, Some((full_key, v)))),
                    Err(e) => Err(e),
                }
            },
        }
    }
}

proof fn lemma_find_char_bounds(s: Seq<char>, c: char, i: int)
    ensures
        find_char(s, c, i) matches Some(k) ==> 0 <= i <= k < s.len() && s[k] == c,
    decreases s.len() - i,
{
    if 0 <= i < s.len() && s[i] != c {
        lemma_find_char_bounds(s, c, i + 1);
    }
}

fn find_char_in(chars: &Vec<char>, from: usize, to: usize, c: char) -> (r: Option<usize>)
    requires
        from <= to <= chars@.len(),
    ensures
        r matches Some(k) ==> from <= k < to,
        match r {
            Some(x) => find_char(chars@.subrange(from as int, to as int), c, 0) == Some(x - from),
            None => find_char(chars@.subrange(from as int, to as int), c, 0) is None,
        },
{
    let ghost s = chars@.subrange(from as int, to as int);
    proof {
        lemma_find_char_bounds(s, c, 0);
    }
    let mut i = from;
    while i < to
        invariant
            from <= i <= to <= chars@.len(),
            s == chars@.subrange(from as int, to as int),
            find_char(s, c, 0) == find_char(s, c, i - from),
        decreases to - i,
    {
        assert(s[i - from] == chars@[i as int]);
        if chars[i] == c {
            return Some(i);
        }
        i = i + 1;
    }
    None
}

/// Reads one line of the configuration file (see `spec_parse_config_line`),
/// updating the current section; `line` is the line number shown in errors.
pub fn parse_config_line(raw: &str, line: usize, section: &mut String) -> (r: Result<
    Option<(String, ConfigValue)>,
    String,
>)
    ensures
        match (r, spec_parse_config_line(raw@, line as nat, old(section)@)) {
            (Ok(entry), Ok((sec, spec_entry))) => {
                &&& final(section)@ == sec
                &&& match (entry, spec_entry) {
                    (None, None) => true,
                    (Some((k, v)), Some((sk, sv))) => k@ == sk && v@ == sv,
                    _ => false,
                }
            },
            (Err(e), Err(m)) => e@ == m && final(section)@ == old(section)@,
            _ => false,
        },
{
    let stripped = strip_comment(raw);
    let sc = chars_of(stripped);
    let (a, b) = trim_bounds(&sc, 0, sc.len());
    let chars = vec_range(&sc, a, b);
    let ghost l = chars@;
    proof {
        assert(sc@.subrange(0, sc@.len() as int) =~= sc@);
    }
    let n = chars.len();
    if n == 0 {
        return Ok(None);
    }
    if chars[0] == '[' && chars[n - 1] == ']' && n >= 2 {
        let (c, d) = trim_bounds(&chars, 1, n - 1);
        *section = string_of_range(&chars, c, d);
        return Ok(None);
    }
    let eq = match find_char_in(&chars, 0, n, '=') {
        Some(k) => k,
        None => {
            proof {
                assert(chars@.subrange(0, n as int) =~= l);
            }
            let mut msg = "line ".to_owned();
            let num = decimal_string(line as u64);
            msg.append(num.as_str());
            msg.append(": expected key = value");
            return Err(msg);
        },
    };
    proof {
        assert(chars@.subrange(0, n as int) =~= l);
    }
    let (ka, kb) = trim_bounds(&chars, 0, eq);
    let key = string_of_range(&chars, ka, kb);
    let full_key = if section.unicode_len() == 0 {
        key
    } else {
        let mut k = section.clone();
        k.append(".");
        k.append(key.as_str());
        k
    };
    let value_text = string_of_range(&chars, eq + 1, n);
    proof {
        assert(l == spec_trim(raw@.subrange(0, comment_start(raw@, 0, false, false))));
        assert(find_char(l, '=', 0) == Some(eq as int));
        assert(key@ == spec_trim(l.subrange(0, eq as int)));
        assert(value_text@ == l.subrange(eq + 1, l.len() as int));
    }
    match parse_config_value(value_text.as_str(), line) {
        Ok(v) => Ok(Some((full_key, v))),
        Err(e) => Err(e),
    }
}

/// A copy of `chars[from..to]`.
pub fn vec_range(chars: &Vec<char>, from: usize, to: usize) -> (r: Vec<char>)
    requires
        from <= to <= chars@.len(),
    ensures
        r@ == chars@.subrange(from as int, to as int),
{
    let mut out: Vec<char> = Vec::new();
    let mut i = from;
    while i < to
        invariant
            from <= i <= to <= chars@.len(),
            out@ == chars@.subrange(from as int, i as int),
        decreases to - i,
    {
        out.push(chars[i]);
        i = i + 1;
        assert(out@ =~= chars@.subrange(from as int, i as int));
    }
    out
}

/// The value that follows a command-line option, or an error naming the
/// option when there is none.
pub fn next_arg(value: Option<String>, name: &str) -> (r: Result<String, String>)
    ensures
        match value {
            Some(v) => r == Ok::<String, String>(v),
            None => r matches Err(e) && e@ == name@ + " requires a value"@,
        },
{
    match value {
        Some(v) => Ok(v),
        None => Err(join2(name, " requires a value")),
    }
}

/// The configuration file in the working directory.
pub fn local_config_path() -> (p: &'static str)
    ensures
        p@ == "config/force-touch-linux.toml"@,
{
    "config/force-touch-linux.toml"
}

/// The system-wide configuration file.
pub fn system_config_path() -> (p: &'static str)
    ensures
        p@ == "/etc/force-touch-linux/config.toml"@,
{
    "/etc/force-touch-linux/config.toml"
}

/// The configuration file to read when none is given: the local one when it
/// exists, else the system-wide one when it exists, else none.
pub fn default_config_path(local_exists: bool, system_exists: bool) -> (p: Option<String>)
    ensures
        local_exists ==> (p matches Some(s) && s@ == "config/force-touch-linux.toml"@),
        !local_exists && system_exists ==> (p matches Some(s) && s@ == "/etc/force-touch-linux/config.toml"@),
        !local_exists && !system_exists ==> p is None,
{
    if local_exists {
        return Some(local_config_path().to_owned());
    }
    if system_exists {
        return Some(system_config_path().to_owned());
    }
    None
}

} // verus!
