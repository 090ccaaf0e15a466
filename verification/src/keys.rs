use vstd::prelude::*;

verus! {

/// What a touchpad gesture or a remapped button does on the virtual
/// mouse/keyboard: press a mouse button (by its bitmask), press a keyboard key
/// (by its HID usage code), or nothing.
#[derive(Clone, Copy, Debug, PartialEq, Eq, Structural)]
pub enum Action {
    Mouse(u8),
    Keyboard(u8),
    NoAction,
}

/// Characters that key and mouse-button names may contain anywhere without
/// changing their meaning.
pub open spec fn is_separator(c: char) -> bool {
    c == ' ' || c == '_'
}

/// `s` with every space and underscore removed.
pub open spec fn strip_separators(s: Seq<char>) -> Seq<char>
    decreases s.len(),
{
    if s.len() == 0 {
        Seq::empty()
    } else {
        let rest = strip_separators(s.drop_last());
        if is_separator(s.last()) {
            rest
        } else {
            rest.push(s.last())
        }
    }
}

/// The HID keyboard usage code of each key name, as written once spaces and
/// underscores are removed.
pub open spec fn spec_key_table(name: Seq<char>) -> Option<u8> {
    if name == "a"@ {
        Some(0x04u8)
    } else if name == "b"@ {
        Some(0x05u8)
    } else if name == "c"@ {
        Some(0x06u8)
    } else if name == "d"@ {
        Some(0x07u8)
    } else if name == "e"@ {
        Some(0x08u8)
    } else if name == "f"@ {
        Some(0x09u8)
    } else if name == "g"@ {
        Some(0x0Au8)
    } else if name == "h"@ {
        Some(0x0Bu8)
    } else if name == "i"@ {
        Some(0x0Cu8)
    } else if name == "j"@ {
        Some(0x0Du8)
    } else if name == "k"@ {
        Some(0x0Eu8)
    } else if name == "l"@ {
        Some(0x0Fu8)
    } else if name == "m"@ {
        Some(0x10u8)
    } else if name == "n"@ {
        Some(0x11u8)
    } else if name == "o"@ {
        Some(0x12u8)
    } else if name == "p"@ {
        Some(0x13u8)
    } else if name == "q"@ {
        Some(0x14u8)
    } else if name == "r"@ {
        Some(0x15u8)
    } else if name == "s"@ {
        Some(0x16u8)
    } else if name == "t"@ {
        Some(0x17u8)
    } else if name == "u"@ {
        Some(0x18u8)
    } else if name == "v"@ {
        Some(0x19u8)
    } else if name == "w"@ {
        Some(0x1Au8)
    } else if name == "x"@ {
        Some(0x1Bu8)
    } else if name == "y"@ {
        Some(0x1Cu8)
    } else if name == "z"@ {
        Some(0x1Du8)
    } else if name == "1"@ {
        Some(0x1Eu8)
    } else if name == "2"@ {
        Some(0x1Fu8)
    } else if name == "3"@ {
        Some(0x20u8)
    } else if name == "4"@ {
        Some(0x21u8)
    } else if name == "5"@ {
        Some(0x22u8)
    } else if name == "6"@ {
        Some(0x23u8)
    } else if name == "7"@ {
        Some(0x24u8)
    } else if name == "8"@ {
        Some(0x25u8)
    } else if name == "9"@ {
        Some(0x26u8)
    } else if name == "0"@ {
        Some(0x27u8)
    } else if name == "enter"@ {
        Some(0x28u8)
    } else if name == "escape"@ {
        Some(0x29u8)
    } else if name == "backspace"@ {
        Some(0x2Au8)
    } else if name == "tab"@ {
        Some(0x2Bu8)
    } else if name == "space"@ {
        Some(0x2Cu8)
    } else if name == "minus"@ {
        Some(0x2Du8)
    } else if name == "equal"@ {
        Some(0x2Eu8)
    } else if name == "leftbrace"@ {
        Some(0x2Fu8)
    } else if name == "rightbrace"@ {
        Some(0x30u8)
    } else if name == "backslash"@ {
        Some(0x31u8)
    } else if name == "semicolon"@ {
        Some(0x33u8)
    } else if name == "apostrophe"@ {
        Some(0x34u8)
    } else if name == "grave"@ {
        Some(0x35u8)
    } else if name == "comma"@ {
        Some(0x36u8)
    } else if name == "period"@ {
        Some(0x37u8)
    } else if name == "slash"@ {
        Some(0x38u8)
    } else if name == "capslock"@ {
        Some(0x39u8)
    } else if name == "f1"@ {
        Some(0x3Au8)
    } else if name == "f2"@ {
        Some(0x3Bu8)
    } else if name == "f3"@ {
        Some(0x3Cu8)
    } else if name == "f4"@ {
        Some(0x3Du8)
    } else if name == "f5"@ {
        Some(0x3Eu8)
    } else if name == "f6"@ {
        Some(0x3Fu8)
    } else if name == "f7"@ {
        Some(0x40u8)
    } else if name == "f8"@ {
        Some(0x41u8)
    } else if name == "f9"@ {
        Some(0x42u8)
    } else if name == "f10"@ {
        Some(0x43u8)
    } else if name == "f11"@ {
        Some(0x44u8)
    } else if name == "f12"@ {
        Some(0x45u8)
    } else if name == "printscreen"@ {
        Some(0x46u8)
    } else if name == "scrolllock"@ {
        Some(0x47u8)
    } else if name == "pause"@ {
        Some(0x48u8)
    } else if name == "insert"@ {
        Some(0x49u8)
    } else if name == "home"@ {
        Some(0x4Au8)
    } else if name == "pageup"@ {
        Some(0x4Bu8)
    } else if name == "delete"@ {
        Some(0x4Cu8)
    } else if name == "end"@ {
        Some(0x4Du8)
    } else if name == "pagedown"@ {
        Some(0x4Eu8)
    } else if name == "right"@ {
        Some(0x4Fu8)
    } else if name == "left"@ {
        Some(0x50u8)
    } else if name == "down"@ {
        Some(0x51u8)
    } else if name == "up"@ {
        Some(0x52u8)
    } else if name == "numlock"@ {
        Some(0x53u8)
    } else if name == "mute"@ {
        Some(0x7Fu8)
    } else if name == "volumeup"@ {
        Some(0x80u8)
    } else if name == "volumedown"@ {
        Some(0x81u8)
    } else {
        None
    }}

/// The mouse button bitmask of each mouse button name, as written once spaces
/// and underscores are removed.
pub open spec fn spec_mouse_table(name: Seq<char>) -> Option<u8> {
    if name == "mouseleft"@ || name == "leftclick"@ {
        Some(0x01u8)
    } else if name == "mouseright"@ || name == "rightclick"@ {
        Some(0x02u8)
    } else if name == "mousemiddle"@ || name == "middleclick"@ {
        Some(0x04u8)
    } else if name == "mouseback"@ {
        Some(0x08u8)
    } else if name == "mouseforward"@ {
        Some(0x10u8)
    } else {
        None
    }
}

/// The key code that `name` denotes: spaces and underscores are ignored.
pub open spec fn spec_get_key_code(name: Seq<char>) -> Option<u8> {
    spec_key_table(strip_separators(name))
}

/// The mouse button that `name` denotes: spaces and underscores are ignored.
pub open spec fn spec_get_mouse_button(name: Seq<char>) -> Option<u8> {
    spec_mouse_table(strip_separators(name))
}

/// The action that an already trimmed and lower-cased name denotes: empty or
/// "none" is no action, a mouse button name wins over a key name, and an
/// unknown name is no action.
pub open spec fn spec_action_of_normalized(n: Seq<char>) -> Action {
    if n.len() == 0 || n == "none"@ {
        Action::NoAction
    } else if spec_get_mouse_button(n) is Some {
        Action::Mouse(spec_get_mouse_button(n)->0)
    } else if spec_get_key_code(n) is Some {
        Action::Keyboard(spec_get_key_code(n)->0)
    } else {
        Action::NoAction
    }
}

/// Whether `c` has the Unicode White_Space property, which is what
/// `char::is_whitespace` tests: U+0009..=U+000D, U+0020, U+0085, U+00A0,
/// U+1680, U+2000..=U+200A, U+2028, U+2029, U+202F, U+205F and U+3000.
pub open spec fn is_white_space(c: char) -> bool {
    let u = c as int;
    ||| 0x09 <= u <= 0x0D
    ||| u == 0x20
    ||| u == 0x85
    ||| u == 0xA0
    ||| u == 0x1680
    ||| 0x2000 <= u <= 0x200A
    ||| u == 0x2028
    ||| u == 0x2029
    ||| u == 0x202F
    ||| u == 0x205F
    ||| u == 0x3000
}

/// `s` without its leading whitespace.
pub open spec fn spec_trim_start(s: Seq<char>) -> Seq<char>
    decreases s.len(),
{
    if s.len() > 0 && is_white_space(s[0]) {
        spec_trim_start(s.drop_first())
    } else {
        s
    }
}

/// `s` without its trailing whitespace.
pub open spec fn spec_trim_end(s: Seq<char>) -> Seq<char>
    decreases s.len(),
{
    if s.len() > 0 && is_white_space(s.last()) {
        spec_trim_end(s.drop_last())
    } else {
        s
    }
}

/// What `str::trim` returns: `s` without its leading and trailing whitespace.
pub open spec fn spec_trim(s: Seq<char>) -> Seq<char> {
    spec_trim_end(spec_trim_start(s))
}

/// Whether every character is ASCII.
pub open spec fn spec_is_ascii(s: Seq<char>) -> bool {
    forall|i: int| 0 <= i < s.len() ==> (#[trigger] s[i] as int) < 128
}

/// An ASCII upper-case letter lower-cased; every other character unchanged.
pub open spec fn ascii_lower_char(c: char) -> char {
    if 'A' <= c <= 'Z' {
        ((c as int) + 32) as char
    } else {
        c
    }
}

/// `s` with its ASCII upper-case letters lower-cased.
pub open spec fn spec_ascii_lowercase(s: Seq<char>) -> Seq<char>
    decreases s.len(),
{
    if s.len() == 0 {
        Seq::empty()
    } else {
        spec_ascii_lowercase(s.drop_last()).push(ascii_lower_char(s.last()))
    }
}

/// What `str::to_lowercase` returns for a string with these characters.
pub uninterp spec fn spec_to_lowercase(s: Seq<char>) -> Seq<char>;

/// The action that a configured name denotes, after surrounding whitespace is
/// trimmed and the name is lower-cased.
pub open spec fn spec_parse_action(name: Seq<char>) -> Action {
    spec_action_of_normalized(spec_to_lowercase(spec_trim(name)))
}

/// The action that an ASCII name denotes, trimmed and with its ASCII letters
/// lower-cased (which is what `str::to_lowercase` does to ASCII text).
pub open spec fn spec_parse_ascii_action(name: Seq<char>) -> Action {
    spec_action_of_normalized(spec_ascii_lowercase(spec_trim(name)))
}

/// Whether a configured name names an action that does not exist: not blank,
/// not "none", and neither a mouse button name nor a key name once trimmed and
/// lower-cased.
pub open spec fn spec_is_unknown_action_name(name: Seq<char>) -> bool {
    let n = spec_to_lowercase(spec_trim(name));
    &&& !(n.len() == 0 || n == "none"@)
    &&& spec_get_mouse_button(n) is None
    &&& spec_get_key_code(n) is None
}

/// Calls `str::trim`. Claimed, as std documents it: the result is the input
/// without leading and trailing whitespace, whitespace being the Unicode
/// White_Space property that `char::is_whitespace` tests.
#[verifier::external_body]
fn trim_str(s: &str) -> (r: &str)
    ensures
        r@ == spec_trim(s@),
{
    s.trim()
}

/// Calls `str::to_lowercase`. Claimed: the result is named `spec_to_lowercase`
/// of the input, and on an all-ASCII input it is the input with 'A'..='Z'
/// lower-cased (the Unicode Lowercase mapping of ASCII); the mapping of other
/// characters is left to the name.
#[verifier::external_body]
fn lowercase_str(s: &str) -> (r: String)
    ensures
        r@ == spec_to_lowercase(s@),
        spec_is_ascii(s@) ==> r@ == spec_ascii_lowercase(s@),
{
    s.to_lowercase()
}

/// Whether two strings hold the same characters.
pub fn str_eq(a: &str, b: &str) -> (r: bool)
    ensures
        r == (a@ == b@),
{
    let n = a.unicode_len();
    if n != b.unicode_len() {
        return false;
    }
    let mut i: usize = 0;
    while i < n
        invariant
            n == a@.len(),
            n == b@.len(),
            i <= n,
            forall|j: int| 0 <= j < i ==> a@[j] == b@[j],
        decreases n - i,
    {
        if a.get_char(i) != b.get_char(i) {
            return false;
        }
        i = i + 1;
    }
    assert(a@ =~= b@);
    true
}

/// Whether the characters in `v` spell out `lit`.
fn chars_match(v: &Vec<char>, lit: &str) -> (r: bool)
    ensures
        r == (v@ == lit@),
{
    let n = lit.unicode_len();
    if v.len() != n {
        return false;
    }
    let mut i: usize = 0;
    while i < n
        invariant
            n == lit@.len(),
            n == v@.len(),
            i <= n,
            forall|j: int| 0 <= j < i ==> v@[j] == lit@[j],
        decreases n - i,
    {
        if v[i] != lit.get_char(i) {
            return false;
        }
        i = i + 1;
    }
    assert(v@ =~= lit@);
    true
}

/// The characters of `name` with spaces and underscores removed.
fn strip_separators_exec(name: &str) -> (out: Vec<char>)
    ensures
        out@ == strip_separators(name@),
{
    let n = name.unicode_len();
    let mut out: Vec<char> = Vec::new();
    let mut i: usize = 0;
    assert(name@.take(0) =~= Seq::<char>::empty());
    while i < n
        invariant
            n == name@.len(),
            i <= n,
            out@ == strip_separators(name@.take(i as int)),
        decreases n - i,
    {
        let c = name.get_char(i);
        assert(name@.take(i + 1).drop_last() =~= name@.take(i as int));
        if c != ' ' && c != '_' {
            out.push(c);
        }
        i = i + 1;
    }
    assert(name@.take(n as int) =~= name@);
    out
}

/// Looks a separator-free name up in the key table.
fn key_table_lookup(name: &Vec<char>) -> (code: Option<u8>)
    ensures
        code == spec_key_table(name@),
{
    if chars_match(name, "a") {
        Some(0x04)
    } else if chars_match(name, "b") {
        Some(0x05)
    } else if chars_match(name, "c") {
        Some(0x06)
    } else if chars_match(name, "d") {
        Some(0x07)
    } else if chars_match(name, "e") {
        Some(0x08)
    } else if chars_match(name, "f") {
        Some(0x09)
    } else if chars_match(name, "g") {
        Some(0x0A)
    } else if chars_match(name, "h") {
        Some(0x0B)
    } else if chars_match(name, "i") {
        Some(0x0C)
    } else if chars_match(name, "j") {
        Some(0x0D)
    } else if chars_match(name, "k") {
        Some(0x0E)
    } else if chars_match(name, "l") {
        Some(0x0F)
    } else if chars_match(name, "m") {
        Some(0x10)
    } else if chars_match(name, "n") {
        Some(0x11)
    } else if chars_match(name, "o") {
        Some(0x12)
    } else if chars_match(name, "p") {
        Some(0x13)
    } else if chars_match(name, "q") {
        Some(0x14)
    } else if chars_match(name, "r") {
        Some(0x15)
    } else if chars_match(name, "s") {
        Some(0x16)
    } else if chars_match(name, "t") {
        Some(0x17)
    } else if chars_match(name, "u") {
        Some(0x18)
    } else if chars_match(name, "v") {
        Some(0x19)
    } else if chars_match(name, "w") {
        Some(0x1A)
    } else if chars_match(name, "x") {
        Some(0x1B)
    } else if chars_match(name, "y") {
        Some(0x1C)
    } else if chars_match(name, "z") {
        Some(0x1D)
    } else if chars_match(name, "1") {
        Some(0x1E)
    } else if chars_match(name, "2") {
        Some(0x1F)
    } else if chars_match(name, "3") {
        Some(0x20)
    } else if chars_match(name, "4") {
        Some(0x21)
    } else if chars_match(name, "5") {
        Some(0x22)
    } else if chars_match(name, "6") {
        Some(0x23)
    } else if chars_match(name, "7") {
        Some(0x24)
    } else if chars_match(name, "8") {
        Some(0x25)
    } else if chars_match(name, "9") {
        Some(0x26)
    } else if chars_match(name, "0") {
        Some(0x27)
    } else if chars_match(name, "enter") {
        Some(0x28)
    } else if chars_match(name, "escape") {
        Some(0x29)
    } else if chars_match(name, "backspace") {
        Some(0x2A)
    } else if chars_match(name, "tab") {
        Some(0x2B)
    } else if chars_match(name, "space") {
        Some(0x2C)
    } else if chars_match(name, "minus") {
        Some(0x2D)
    } else if chars_match(name, "equal") {
        Some(0x2E)
    } else if chars_match(name, "leftbrace") {
        Some(0x2F)
    } else if chars_match(name, "rightbrace") {
        Some(0x30)
    } else if chars_match(name, "backslash") {
        Some(0x31)
    } else if chars_match(name, "semicolon") {
        Some(0x33)
    } else if chars_match(name, "apostrophe") {
        Some(0x34)
    } else if chars_match(name, "grave") {
        Some(0x35)
    } else if chars_match(name, "comma") {
        Some(0x36)
    } else if chars_match(name, "period") {
        Some(0x37)
    } else if chars_match(name, "slash") {
        Some(0x38)
    } else if chars_match(name, "capslock") {
        Some(0x39)
    } else if chars_match(name, "f1") {
        Some(0x3A)
    } else if chars_match(name, "f2") {
        Some(0x3B)
    } else if chars_match(name, "f3") {
        Some(0x3C)
    } else if chars_match(name, "f4") {
        Some(0x3D)
    } else if chars_match(name, "f5") {
        Some(0x3E)
    } else if chars_match(name, "f6") {
        Some(0x3F)
    } else if chars_match(name, "f7") {
        Some(0x40)
    } else if chars_match(name, "f8") {
        Some(0x41)
    } else if chars_match(name, "f9") {
        Some(0x42)
    } else if chars_match(name, "f10") {
        Some(0x43)
    } else if chars_match(name, "f11") {
        Some(0x44)
    } else if chars_match(name, "f12") {
        Some(0x45)
    } else if chars_match(name, "printscreen") {
        Some(0x46)
    } else if chars_match(name, "scrolllock") {
        Some(0x47)
    } else if chars_match(name, "pause") {
        Some(0x48)
    } else if chars_match(name, "insert") {
        Some(0x49)
    } else if chars_match(name, "home") {
        Some(0x4A)
    } else if chars_match(name, "pageup") {
        Some(0x4B)
    } else if chars_match(name, "delete") {
        Some(0x4C)
    } else if chars_match(name, "end") {
        Some(0x4D)
    } else if chars_match(name, "pagedown") {
        Some(0x4E)
    } else if chars_match(name, "right") {
        Some(0x4F)
    } else if chars_match(name, "left") {
        Some(0x50)
    } else if chars_match(name, "down") {
        Some(0x51)
    } else if chars_match(name, "up") {
        Some(0x52)
    } else if chars_match(name, "numlock") {
        Some(0x53)
    } else if chars_match(name, "mute") {
        Some(0x7F)
    } else if chars_match(name, "volumeup") {
        Some(0x80)
    } else if chars_match(name, "volumedown") {
        Some(0x81)
    } else {
        None
    }}

/// Looks a separator-free name up among the mouse button names.
fn mouse_table_lookup(name: &Vec<char>) -> (button: Option<u8>)
    ensures
        button == spec_mouse_table(name@),
{
    if chars_match(name, "mouseleft") || chars_match(name, "leftclick") {
        Some(0x01)
    } else if chars_match(name, "mouseright") || chars_match(name, "rightclick") {
        Some(0x02)
    } else if chars_match(name, "mousemiddle") || chars_match(name, "middleclick") {
        Some(0x04)
    } else if chars_match(name, "mouseback") {
        Some(0x08)
    } else if chars_match(name, "mouseforward") {
        Some(0x10)
    } else {
        None
    }
}

/// The HID keyboard usage code of a key name such as "a", "f5", "page_up" or
/// "left brace"; spaces and underscores in the name are ignored. The name is
/// matched as given: callers lower-case it first.
pub fn get_key_code(name: &str) -> (code: Option<u8>)
    ensures
        code == spec_get_key_code(name@),
{
    let stripped = strip_separators_exec(name);
    key_table_lookup(&stripped)
}

/// The mouse button bitmask of a mouse button name ("mouse_left",
/// "left click", "mouseforward", ...); spaces and underscores are ignored.
pub fn get_mouse_button(name: &str) -> (button: Option<u8>)
    ensures
        button == spec_get_mouse_button(name@),
{
    let stripped = strip_separators_exec(name);
    mouse_table_lookup(&stripped)
}

impl Action {
    /// The action that an already trimmed and lower-cased name denotes.
    pub fn from_normalized(n: &str) -> (a: Action)
        ensures
            a == spec_action_of_normalized(n@),
    {
        if n.is_empty() || str_eq(n, "none") {
            return Action::NoAction;
        }
        if let Some(btn) = get_mouse_button(n) {
            Action::Mouse(btn)
        } else if let Some(key) = get_key_code(n) {
            Action::Keyboard(key)
        } else {
            Action::NoAction
        }
    }

    /// Parses a configured action name: surrounding whitespace is trimmed, the
    /// name is lower-cased, "" and "none" mean no action, mouse button names
    /// give `Mouse`, key names give `Keyboard`, and anything else gives `None`.
    pub fn parse(name: &str) -> (a: Action)
        ensures
            a == spec_parse_action(name@),
            spec_is_ascii(name@) ==> a == spec_parse_ascii_action(name@),
    {
        let trimmed = trim_str(name);
        proof {
            lemma_trim_keeps_ascii(name@);
        }
        let lowered = lowercase_str(trimmed);
        Action::from_normalized(lowered.as_str())
    }

    /// Whether `name` is neither blank, "none", a mouse button name nor a key
    /// name once trimmed and lower-cased: a name that parses to no action
    /// although it names one (a misspelt or unsupported name).
    pub fn is_unknown_name(name: &str) -> (r: bool)
        ensures
            r == spec_is_unknown_action_name(name@),
    {
        let trimmed = trim_str(name);
        let lowered = lowercase_str(trimmed);
        let n = lowered.as_str();
        if n.is_empty() || str_eq(n, "none") {
            return false;
        }
        get_mouse_button(n).is_none() && get_key_code(n).is_none()
    }
}

/// Removing separators twice removes nothing more.
pub proof fn lemma_strip_separators_idempotent(s: Seq<char>)
    ensures
        strip_separators(strip_separators(s)) == strip_separators(s),
        forall|i: int| 0 <= i < strip_separators(s).len() ==> !is_separator(#[trigger] strip_separators(s)[i]),
    decreases s.len(),
{
    if s.len() > 0 {
        let init = s.drop_last();
        lemma_strip_separators_idempotent(init);
        let r = strip_separators(init);
        if !is_separator(s.last()) {
            let t = r.push(s.last());
            assert(t.drop_last() =~= r);
            assert(t.last() == s.last());
            assert forall|i: int| 0 <= i < t.len() implies !is_separator(#[trigger] t[i]) by {
                if i < r.len() {
                    assert(t[i] == r[i]);
                }
            }
        }
    }
}

/// Key and mouse button names may carry spaces and underscores anywhere:
/// a name looks up the same as the name without them.
pub proof fn law_separators_ignored(name: Seq<char>)
    ensures
        spec_get_key_code(strip_separators(name)) == spec_get_key_code(name),
        spec_get_mouse_button(strip_separators(name)) == spec_get_mouse_button(name),
{
    lemma_strip_separators_idempotent(name);
}

/// Each mouse button name denotes a single button bit, so pressing one never
/// presses another.
pub proof fn law_mouse_buttons_are_single_bits(name: Seq<char>)
    ensures
        spec_get_mouse_button(name) matches Some(b) ==> (b == 0x01u8 || b == 0x02u8 || b == 0x04u8
            || b == 0x08u8 || b == 0x10u8),
{
}

/// An empty name and "none" denote no action.
pub proof fn law_blank_and_none_are_no_action()
    ensures
        spec_action_of_normalized(Seq::empty()) == Action::NoAction,
        spec_action_of_normalized("none"@) == Action::NoAction,
{
}


/// No mouse button name is also a key name (after separators are removed),
/// so the order in which an action name is looked up never hides a key.
pub proof fn law_mouse_names_are_not_key_names(name: Seq<char>)
    ensures
        spec_mouse_table(name) is Some ==> spec_key_table(name) is None,
        spec_get_mouse_button(name) is Some ==> spec_get_key_code(name) is None,
{
    lemma_not_a_key_name_mouseleft();
    lemma_not_a_key_name_leftclick();
    lemma_not_a_key_name_mouseright();
    lemma_not_a_key_name_rightclick();
    lemma_not_a_key_name_mousemiddle();
    lemma_not_a_key_name_middleclick();
    lemma_not_a_key_name_mouseback();
    lemma_not_a_key_name_mouseforward();
}

/// The length of every key name in the key table.
proof fn lemma_key_name_lengths()
    ensures
        "a"@.len() == 1,
        "b"@.len() == 1,
        "c"@.len() == 1,
        "d"@.len() == 1,
        "e"@.len() == 1,
        "f"@.len() == 1,
        "g"@.len() == 1,
        "h"@.len() == 1,
        "i"@.len() == 1,
        "j"@.len() == 1,
        "k"@.len() == 1,
        "l"@.len() == 1,
        "m"@.len() == 1,
        "n"@.len() == 1,
        "o"@.len() == 1,
        "p"@.len() == 1,
        "q"@.len() == 1,
        "r"@.len() == 1,
        "s"@.len() == 1,
        "t"@.len() == 1,
        "u"@.len() == 1,
        "v"@.len() == 1,
        "w"@.len() == 1,
        "x"@.len() == 1,
        "y"@.len() == 1,
        "z"@.len() == 1,
        "1"@.len() == 1,
        "2"@.len() == 1,
        "3"@.len() == 1,
        "4"@.len() == 1,
        "5"@.len() == 1,
        "6"@.len() == 1,
        "7"@.len() == 1,
        "8"@.len() == 1,
        "9"@.len() == 1,
        "0"@.len() == 1,
        "enter"@.len() == 5,
        "escape"@.len() == 6,
        "backspace"@.len() == 9,
        "tab"@.len() == 3,
        "space"@.len() == 5,
        "minus"@.len() == 5,
        "equal"@.len() == 5,
        "leftbrace"@.len() == 9,
        "rightbrace"@.len() == 10,
        "backslash"@.len() == 9,
        "semicolon"@.len() == 9,
        "apostrophe"@.len() == 10,
        "grave"@.len() == 5,
        "comma"@.len() == 5,
        "period"@.len() == 6,
        "slash"@.len() == 5,
        "capslock"@.len() == 8,
        "f1"@.len() == 2,
        "f2"@.len() == 2,
        "f3"@.len() == 2,
        "f4"@.len() == 2,
        "f5"@.len() == 2,
        "f6"@.len() == 2,
        "f7"@.len() == 2,
        "f8"@.len() == 2,
        "f9"@.len() == 2,
        "f10"@.len() == 3,
        "f11"@.len() == 3,
        "f12"@.len() == 3,
        "printscreen"@.len() == 11,
        "scrolllock"@.len() == 10,
        "pause"@.len() == 5,
        "insert"@.len() == 6,
        "home"@.len() == 4,
        "pageup"@.len() == 6,
        "delete"@.len() == 6,
        "end"@.len() == 3,
        "pagedown"@.len() == 8,
        "right"@.len() == 5,
        "left"@.len() == 4,
        "down"@.len() == 4,
        "up"@.len() == 2,
        "numlock"@.len() == 7,
        "mute"@.len() == 4,
        "volumeup"@.len() == 8,
        "volumedown"@.len() == 10,
{
    reveal_strlit("a");
    reveal_strlit("b");
    reveal_strlit("c");
    reveal_strlit("d");
    reveal_strlit("e");
    reveal_strlit("f");
    reveal_strlit("g");
    reveal_strlit("h");
    reveal_strlit("i");
    reveal_strlit("j");
    reveal_strlit("k");
    reveal_strlit("l");
    reveal_strlit("m");
    reveal_strlit("n");
    reveal_strlit("o");
    reveal_strlit("p");
    reveal_strlit("q");
    reveal_strlit("r");
    reveal_strlit("s");
    reveal_strlit("t");
    reveal_strlit("u");
    reveal_strlit("v");
    reveal_strlit("w");
    reveal_strlit("x");
    reveal_strlit("y");
    reveal_strlit("z");
    reveal_strlit("1");
    reveal_strlit("2");
    reveal_strlit("3");
    reveal_strlit("4");
    reveal_strlit("5");
    reveal_strlit("6");
    reveal_strlit("7");
    reveal_strlit("8");
    reveal_strlit("9");
    reveal_strlit("0");
    reveal_strlit("enter");
    reveal_strlit("escape");
    reveal_strlit("backspace");
    reveal_strlit("tab");
    reveal_strlit("space");
    reveal_strlit("minus");
    reveal_strlit("equal");
    reveal_strlit("leftbrace");
    reveal_strlit("rightbrace");
    reveal_strlit("backslash");
    reveal_strlit("semicolon");
    reveal_strlit("apostrophe");
    reveal_strlit("grave");
    reveal_strlit("comma");
    reveal_strlit("period");
    reveal_strlit("slash");
    reveal_strlit("capslock");
    reveal_strlit("f1");
    reveal_strlit("f2");
    reveal_strlit("f3");
    reveal_strlit("f4");
    reveal_strlit("f5");
    reveal_strlit("f6");
    reveal_strlit("f7");
    reveal_strlit("f8");
    reveal_strlit("f9");
    reveal_strlit("f10");
    reveal_strlit("f11");
    reveal_strlit("f12");
    reveal_strlit("printscreen");
    reveal_strlit("scrolllock");
    reveal_strlit("pause");
    reveal_strlit("insert");
    reveal_strlit("home");
    reveal_strlit("pageup");
    reveal_strlit("delete");
    reveal_strlit("end");
    reveal_strlit("pagedown");
    reveal_strlit("right");
    reveal_strlit("left");
    reveal_strlit("down");
    reveal_strlit("up");
    reveal_strlit("numlock");
    reveal_strlit("mute");
    reveal_strlit("volumeup");
    reveal_strlit("volumedown");
}

proof fn lemma_not_a_key_name_mouseleft()
    ensures
        spec_key_table("mouseleft"@) is None,
{
    lemma_key_name_lengths();
    reveal_strlit("mouseleft");
    assert("mouseleft"@.len() == 9);
    assert("mouseleft"@ != "backspace"@) by {
        reveal_strlit("backspace");
        assert("mouseleft"@[0] == 'm' && "backspace"@[0] == 'b');
    }
    assert("mouseleft"@ != "leftbrace"@) by {
        reveal_strlit("leftbrace");
        assert("mouseleft"@[0] == 'm' && "leftbrace"@[0] == 'l');
    }
    assert("mouseleft"@ != "backslash"@) by {
        reveal_strlit("backslash");
        assert("mouseleft"@[0] == 'm' && "backslash"@[0] == 'b');
    }
    assert("mouseleft"@ != "semicolon"@) by {
        reveal_strlit("semicolon");
        assert("mouseleft"@[0] == 'm' && "semicolon"@[0] == 's');
    }
}

proof fn lemma_not_a_key_name_leftclick()
    ensures
        spec_key_table("leftclick"@) is None,
{
    lemma_key_name_lengths();
    reveal_strlit("leftclick");
    assert("leftclick"@.len() == 9);
    assert("leftclick"@ != "backspace"@) by {
        reveal_strlit("backspace");
        assert("leftclick"@[0] == 'l' && "backspace"@[0] == 'b');
    }
    assert("leftclick"@ != "leftbrace"@) by {
        reveal_strlit("leftbrace");
        assert("leftclick"@[4] == 'c' && "leftbrace"@[4] == 'b');
    }
    assert("leftclick"@ != "backslash"@) by {
        reveal_strlit("backslash");
        assert("leftclick"@[0] == 'l' && "backslash"@[0] == 'b');
    }
    assert("leftclick"@ != "semicolon"@) by {
        reveal_strlit("semicolon");
        assert("leftclick"@[0] == 'l' && "semicolon"@[0] == 's');
    }
}

proof fn lemma_not_a_key_name_mouseright()
    ensures
        spec_key_table("mouseright"@) is None,
{
    lemma_key_name_lengths();
    reveal_strlit("mouseright");
    assert("mouseright"@.len() == 10);
    assert("mouseright"@ != "rightbrace"@) by {
        reveal_strlit("rightbrace");
        assert("mouseright"@[0] == 'm' && "rightbrace"@[0] == 'r');
    }
    assert("mouseright"@ != "apostrophe"@) by {
        reveal_strlit("apostrophe");
        assert("mouseright"@[0] == 'm' && "apostrophe"@[0] == 'a');
    }
    assert("mouseright"@ != "scrolllock"@) by {
        reveal_strlit("scrolllock");
        assert("mouseright"@[0] == 'm' && "scrolllock"@[0] == 's');
    }
    assert("mouseright"@ != "volumedown"@) by {
        reveal_strlit("volumedown");
        assert("mouseright"@[0] == 'm' && "volumedown"@[0] == 'v');
    }
}

proof fn lemma_not_a_key_name_rightclick()
    ensures
        spec_key_table("rightclick"@) is None,
{
    lemma_key_name_lengths();
    reveal_strlit("rightclick");
    assert("rightclick"@.len() == 10);
    assert("rightclick"@ != "rightbrace"@) by {
        reveal_strlit("rightbrace");
        assert("rightclick"@[5] == 'c' && "rightbrace"@[5] == 'b');
    }
    assert("rightclick"@ != "apostrophe"@) by {
        reveal_strlit("apostrophe");
        assert("rightclick"@[0] == 'r' && "apostrophe"@[0] == 'a');
    }
    assert("rightclick"@ != "scrolllock"@) by {
        reveal_strlit("scrolllock");
        assert("rightclick"@[0] == 'r' && "scrolllock"@[0] == 's');
    }
    assert("rightclick"@ != "volumedown"@) by {
        reveal_strlit("volumedown");
        assert("rightclick"@[0] == 'r' && "volumedown"@[0] == 'v');
    }
}

proof fn lemma_not_a_key_name_mousemiddle()
    ensures
        spec_key_table("mousemiddle"@) is None,
{
    lemma_key_name_lengths();
    reveal_strlit("mousemiddle");
    assert("mousemiddle"@.len() == 11);
    assert("mousemiddle"@ != "printscreen"@) by {
        reveal_strlit("printscreen");
        assert("mousemiddle"@[0] == 'm' && "printscreen"@[0] == 'p');
    }
}

proof fn lemma_not_a_key_name_middleclick()
    ensures
        spec_key_table("middleclick"@) is None,
{
    lemma_key_name_lengths();
    reveal_strlit("middleclick");
    assert("middleclick"@.len() == 11);
    assert("middleclick"@ != "printscreen"@) by {
        reveal_strlit("printscreen");
        assert("middleclick"@[0] == 'm' && "printscreen"@[0] == 'p');
    }
}

proof fn lemma_not_a_key_name_mouseback()
    ensures
        spec_key_table("mouseback"@) is None,
{
    lemma_key_name_lengths();
    reveal_strlit("mouseback");
    assert("mouseback"@.len() == 9);
    assert("mouseback"@ != "backspace"@) by {
        reveal_strlit("backspace");
        assert("mouseback"@[0] == 'm' && "backspace"@[0] == 'b');
    }
    assert("mouseback"@ != "leftbrace"@) by {
        reveal_strlit("leftbrace");
        assert("mouseback"@[0] == 'm' && "leftbrace"@[0] == 'l');
    }
    assert("mouseback"@ != "backslash"@) by {
        reveal_strlit("backslash");
        assert("mouseback"@[0] == 'm' && "backslash"@[0] == 'b');
    }
    assert("mouseback"@ != "semicolon"@) by {
        reveal_strlit("semicolon");
        assert("mouseback"@[0] == 'm' && "semicolon"@[0] == 's');
    }
}

proof fn lemma_not_a_key_name_mouseforward()
    ensures
        spec_key_table("mouseforward"@) is None,
{
    lemma_key_name_lengths();
    reveal_strlit("mouseforward");
    assert("mouseforward"@.len() == 12);
}

proof fn lemma_trim_start_facts(s: Seq<char>)
    ensures
        spec_is_ascii(s) ==> spec_is_ascii(spec_trim_start(s)),
        spec_trim_start(s).len() > 0 ==> !is_white_space(spec_trim_start(s)[0]),
        spec_trim_start(s).len() <= s.len(),
    decreases s.len(),
{
    if s.len() > 0 && is_white_space(s[0]) {
        let t = s.drop_first();
        assert forall|i: int| 0 <= i < t.len() implies t[i] == s[i + 1] by {}
        lemma_trim_start_facts(t);
    }
}

proof fn lemma_trim_end_facts(s: Seq<char>)
    ensures
        spec_trim_end(s) == s.subrange(0, spec_trim_end(s).len() as int),
        spec_trim_end(s).len() <= s.len(),
        spec_trim_end(s).len() > 0 ==> !is_white_space(spec_trim_end(s).last()),
    decreases s.len(),
{
    if s.len() > 0 && is_white_space(s.last()) {
        let t = s.drop_last();
        lemma_trim_end_facts(t);
        let r = spec_trim_end(t);
        assert(t.subrange(0, r.len() as int) =~= s.subrange(0, r.len() as int));
    } else {
        assert(s.subrange(0, s.len() as int) =~= s);
    }
}

/// Trimming an ASCII text leaves ASCII text whose first and last characters
/// are not whitespace.
proof fn lemma_trim_keeps_ascii(s: Seq<char>)
    ensures
        spec_is_ascii(s) ==> spec_is_ascii(spec_trim(s)),
        spec_trim(s).len() > 0 ==> !is_white_space(spec_trim(s)[0]) && !is_white_space(
            spec_trim(s).last(),
        ),
{
    let a = spec_trim_start(s);
    lemma_trim_start_facts(s);
    lemma_trim_end_facts(a);
    let b = spec_trim_end(a);
    if b.len() > 0 {
        assert(b[0] == a.subrange(0, b.len() as int)[0]);
    }
    if spec_is_ascii(s) {
        assert forall|i: int| 0 <= i < b.len() implies (#[trigger] b[i] as int) < 128 by {
            assert(b[i] == a.subrange(0, b.len() as int)[i]);
            assert((a[i] as int) < 128);
        }
    }
}

/// A text whose ends are not whitespace is its own trim.
proof fn lemma_trim_fixed(s: Seq<char>)
    requires
        s.len() > 0 ==> !is_white_space(s[0]) && !is_white_space(s.last()),
    ensures
        spec_trim(s) == s,
{
}

proof fn lemma_ascii_lowercase_facts(s: Seq<char>)
    ensures
        spec_ascii_lowercase(s).len() == s.len(),
        forall|i: int| 0 <= i < s.len() ==> #[trigger] spec_ascii_lowercase(s)[i] == ascii_lower_char(s[i]),
    decreases s.len(),
{
    if s.len() > 0 {
        lemma_ascii_lowercase_facts(s.drop_last());
        let r = spec_ascii_lowercase(s);
        assert forall|i: int| 0 <= i < s.len() implies #[trigger] r[i] == ascii_lower_char(s[i]) by {
            if i < s.len() - 1 {
                assert(s.drop_last()[i] == s[i]);
            }
        }
    }
}

/// Normalising an ASCII name a second time changes nothing: the trimmed,
/// lower-cased name is ASCII, trims to itself and lower-cases to itself. With
/// the ASCII clause of `Action::parse`, parsing a name and parsing its
/// normalised form give the same action.
pub proof fn law_ascii_normalization_idempotent(name: Seq<char>)
    requires
        spec_is_ascii(name),
    ensures
        ({
            let n = spec_ascii_lowercase(spec_trim(name));
            &&& spec_is_ascii(n)
            &&& spec_ascii_lowercase(spec_trim(n)) == n
            &&& spec_action_of_normalized(spec_ascii_lowercase(spec_trim(n)))
                == spec_action_of_normalized(n)
        }),
{
    let t = spec_trim(name);
    lemma_trim_keeps_ascii(name);
    lemma_ascii_lowercase_facts(t);
    let n = spec_ascii_lowercase(t);
    assert forall|i: int| 0 <= i < n.len() implies (#[trigger] n[i] as int) < 128 by {
        assert(n[i] == ascii_lower_char(t[i]));
        assert((t[i] as int) < 128);
    }
    if n.len() > 0 {
        assert(n[0] == ascii_lower_char(t[0]));
        assert(n.last() == ascii_lower_char(t.last()));
        assert((t[0] as int) < 128);
        assert((t[t.len() - 1] as int) < 128);
    }
    lemma_trim_fixed(n);
    lemma_ascii_lowercase_facts(n);
    assert(spec_ascii_lowercase(n) =~= n) by {
        assert forall|i: int| 0 <= i < n.len() implies spec_ascii_lowercase(n)[i] == n[i] by {
            assert(n[i] == ascii_lower_char(t[i]));
        }
    }
}

/// The default touchpad actions: "MouseLeft" presses the left mouse button
/// and "MouseRight" the right one.
pub proof fn law_default_touchpad_actions()
    ensures
        spec_is_ascii("MouseLeft"@),
        spec_is_ascii("MouseRight"@),
        spec_parse_ascii_action("MouseLeft"@) == Action::Mouse(0x01),
        spec_parse_ascii_action("MouseRight"@) == Action::Mouse(0x02),
{
    reveal_strlit("MouseLeft");
    reveal_strlit("MouseRight");
    reveal_strlit("mouseleft");
    reveal_strlit("mouseright");
    reveal_strlit("none");
    let upper_left: Seq<char> = seq!['M', 'o', 'u', 's', 'e', 'L', 'e', 'f', 't'];
    let upper_right: Seq<char> = seq!['M', 'o', 'u', 's', 'e', 'R', 'i', 'g', 'h', 't'];
    let left: Seq<char> = seq!['m', 'o', 'u', 's', 'e', 'l', 'e', 'f', 't'];
    let right: Seq<char> = seq!['m', 'o', 'u', 's', 'e', 'r', 'i', 'g', 'h', 't'];
    assert("MouseLeft"@ =~= upper_left);
    assert("MouseRight"@ =~= upper_right);
    assert("mouseleft"@ =~= left);
    assert("mouseright"@ =~= right);
    reveal_strlit("leftclick");
    assert("none"@.len() == 4 && "leftclick"@.len() == 9);
    lemma_normalizes_to(upper_left, left);
    lemma_normalizes_to(upper_right, right);
    lemma_no_separators(left);
    lemma_no_separators(right);
}

/// A name without spaces or underscores is its own separator-free form.
proof fn lemma_no_separators(s: Seq<char>)
    requires
        forall|i: int| 0 <= i < s.len() ==> !is_separator(#[trigger] s[i]),
    ensures
        strip_separators(s) == s,
    decreases s.len(),
{
    if s.len() > 0 {
        let t = s.drop_last();
        assert forall|i: int| 0 <= i < t.len() implies !is_separator(#[trigger] t[i]) by {
            assert(t[i] == s[i]);
        }
        lemma_no_separators(t);
        assert(t.push(s.last()) =~= s);
    }
}

/// An ASCII name without surrounding whitespace whose letters lower-case to
/// `lower` normalises to `lower`.
proof fn lemma_normalizes_to(name: Seq<char>, lower: Seq<char>)
    requires
        name.len() > 0,
        !is_white_space(name[0]),
        !is_white_space(name.last()),
        lower.len() == name.len(),
        forall|i: int| 0 <= i < name.len() ==> #[trigger] ascii_lower_char(name[i]) == lower[i],
    ensures
        spec_ascii_lowercase(spec_trim(name)) == lower,
{
    lemma_trim_fixed(name);
    lemma_ascii_lowercase_facts(name);
    assert(spec_ascii_lowercase(name) =~= lower);
}


/// The key table, entry by entry: each key name gives its HID keyboard usage
/// code (letters 0x04..=0x1D, digits 1..=9 then 0 at 0x1E..=0x27, Enter 0x28,
/// ..., the arrows Right 0x4F, Left 0x50, Down 0x51, Up 0x52, ...).
pub proof fn law_key_codes()
    ensures
        spec_get_key_code("a"@) == Some(0x04u8),
        spec_get_key_code("b"@) == Some(0x05u8),
        spec_get_key_code("c"@) == Some(0x06u8),
        spec_get_key_code("d"@) == Some(0x07u8),
        spec_get_key_code("e"@) == Some(0x08u8),
        spec_get_key_code("f"@) == Some(0x09u8),
        spec_get_key_code("g"@) == Some(0x0Au8),
        spec_get_key_code("h"@) == Some(0x0Bu8),
        spec_get_key_code("i"@) == Some(0x0Cu8),
        spec_get_key_code("j"@) == Some(0x0Du8),
        spec_get_key_code("k"@) == Some(0x0Eu8),
        spec_get_key_code("l"@) == Some(0x0Fu8),
        spec_get_key_code("m"@) == Some(0x10u8),
        spec_get_key_code("n"@) == Some(0x11u8),
        spec_get_key_code("o"@) == Some(0x12u8),
        spec_get_key_code("p"@) == Some(0x13u8),
        spec_get_key_code("q"@) == Some(0x14u8),
        spec_get_key_code("r"@) == Some(0x15u8),
        spec_get_key_code("s"@) == Some(0x16u8),
        spec_get_key_code("t"@) == Some(0x17u8),
        spec_get_key_code("u"@) == Some(0x18u8),
        spec_get_key_code("v"@) == Some(0x19u8),
        spec_get_key_code("w"@) == Some(0x1Au8),
        spec_get_key_code("x"@) == Some(0x1Bu8),
        spec_get_key_code("y"@) == Some(0x1Cu8),
        spec_get_key_code("z"@) == Some(0x1Du8),
        spec_get_key_code("1"@) == Some(0x1Eu8),
        spec_get_key_code("2"@) == Some(0x1Fu8),
        spec_get_key_code("3"@) == Some(0x20u8),
        spec_get_key_code("4"@) == Some(0x21u8),
        spec_get_key_code("5"@) == Some(0x22u8),
        spec_get_key_code("6"@) == Some(0x23u8),
        spec_get_key_code("7"@) == Some(0x24u8),
        spec_get_key_code("8"@) == Some(0x25u8),
        spec_get_key_code("9"@) == Some(0x26u8),
        spec_get_key_code("0"@) == Some(0x27u8),
        spec_get_key_code("enter"@) == Some(0x28u8),
        spec_get_key_code("escape"@) == Some(0x29u8),
        spec_get_key_code("backspace"@) == Some(0x2Au8),
        spec_get_key_code("tab"@) == Some(0x2Bu8),
        spec_get_key_code("space"@) == Some(0x2Cu8),
        spec_get_key_code("minus"@) == Some(0x2Du8),
        spec_get_key_code("equal"@) == Some(0x2Eu8),
        spec_get_key_code("leftbrace"@) == Some(0x2Fu8),
        spec_get_key_code("rightbrace"@) == Some(0x30u8),
        spec_get_key_code("backslash"@) == Some(0x31u8),
        spec_get_key_code("semicolon"@) == Some(0x33u8),
        spec_get_key_code("apostrophe"@) == Some(0x34u8),
        spec_get_key_code("grave"@) == Some(0x35u8),
        spec_get_key_code("comma"@) == Some(0x36u8),
        spec_get_key_code("period"@) == Some(0x37u8),
        spec_get_key_code("slash"@) == Some(0x38u8),
        spec_get_key_code("capslock"@) == Some(0x39u8),
        spec_get_key_code("f1"@) == Some(0x3Au8),
        spec_get_key_code("f2"@) == Some(0x3Bu8),
        spec_get_key_code("f3"@) == Some(0x3Cu8),
        spec_get_key_code("f4"@) == Some(0x3Du8),
        spec_get_key_code("f5"@) == Some(0x3Eu8),
        spec_get_key_code("f6"@) == Some(0x3Fu8),
        spec_get_key_code("f7"@) == Some(0x40u8),
        spec_get_key_code("f8"@) == Some(0x41u8),
        spec_get_key_code("f9"@) == Some(0x42u8),
        spec_get_key_code("f10"@) == Some(0x43u8),
        spec_get_key_code("f11"@) == Some(0x44u8),
        spec_get_key_code("f12"@) == Some(0x45u8),
        spec_get_key_code("printscreen"@) == Some(0x46u8),
        spec_get_key_code("scrolllock"@) == Some(0x47u8),
        spec_get_key_code("pause"@) == Some(0x48u8),
        spec_get_key_code("insert"@) == Some(0x49u8),
        spec_get_key_code("home"@) == Some(0x4Au8),
        spec_get_key_code("pageup"@) == Some(0x4Bu8),
        spec_get_key_code("delete"@) == Some(0x4Cu8),
        spec_get_key_code("end"@) == Some(0x4Du8),
        spec_get_key_code("pagedown"@) == Some(0x4Eu8),
        spec_get_key_code("right"@) == Some(0x4Fu8),
        spec_get_key_code("left"@) == Some(0x50u8),
        spec_get_key_code("down"@) == Some(0x51u8),
        spec_get_key_code("up"@) == Some(0x52u8),
        spec_get_key_code("numlock"@) == Some(0x53u8),
        spec_get_key_code("mute"@) == Some(0x7Fu8),
        spec_get_key_code("volumeup"@) == Some(0x80u8),
        spec_get_key_code("volumedown"@) == Some(0x81u8),
{
    lemma_key_code_a();
    lemma_key_code_b();
    lemma_key_code_c();
    lemma_key_code_d();
    lemma_key_code_e();
    lemma_key_code_f();
    lemma_key_code_g();
    lemma_key_code_h();
    lemma_key_code_i();
    lemma_key_code_j();
    lemma_key_code_k();
    lemma_key_code_l();
    lemma_key_code_m();
    lemma_key_code_n();
    lemma_key_code_o();
    lemma_key_code_p();
    lemma_key_code_q();
    lemma_key_code_r();
    lemma_key_code_s();
    lemma_key_code_t();
    lemma_key_code_u();
    lemma_key_code_v();
    lemma_key_code_w();
    lemma_key_code_x();
    lemma_key_code_y();
    lemma_key_code_z();
    lemma_key_code_1();
    lemma_key_code_2();
    lemma_key_code_3();
    lemma_key_code_4();
    lemma_key_code_5();
    lemma_key_code_6();
    lemma_key_code_7();
    lemma_key_code_8();
    lemma_key_code_9();
    lemma_key_code_0();
    lemma_key_code_enter();
    lemma_key_code_escape();
    lemma_key_code_backspace();
    lemma_key_code_tab();
    lemma_key_code_space();
    lemma_key_code_minus();
    lemma_key_code_equal();
    lemma_key_code_leftbrace();
    lemma_key_code_rightbrace();
    lemma_key_code_backslash();
    lemma_key_code_semicolon();
    lemma_key_code_apostrophe();
    lemma_key_code_grave();
    lemma_key_code_comma();
    lemma_key_code_period();
    lemma_key_code_slash();
    lemma_key_code_capslock();
    lemma_key_code_f1();
    lemma_key_code_f2();
    lemma_key_code_f3();
    lemma_key_code_f4();
    lemma_key_code_f5();
    lemma_key_code_f6();
    lemma_key_code_f7();
    lemma_key_code_f8();
    lemma_key_code_f9();
    lemma_key_code_f10();
    lemma_key_code_f11();
    lemma_key_code_f12();
    lemma_key_code_printscreen();
    lemma_key_code_scrolllock();
    lemma_key_code_pause();
    lemma_key_code_insert();
    lemma_key_code_home();
    lemma_key_code_pageup();
    lemma_key_code_delete();
    lemma_key_code_end();
    lemma_key_code_pagedown();
    lemma_key_code_right();
    lemma_key_code_left();
    lemma_key_code_down();
    lemma_key_code_up();
    lemma_key_code_numlock();
    lemma_key_code_mute();
    lemma_key_code_volumeup();
    lemma_key_code_volumedown();
}

proof fn lemma_key_code_a()
    ensures
        spec_get_key_code("a"@) == Some(0x04u8),
{
    lemma_key_name_lengths();
    reveal_strlit("a");
    assert("a"@ =~= seq!['a']);
    lemma_no_separators(seq!['a']);
}

proof fn lemma_key_code_b()
    ensures
        spec_get_key_code("b"@) == Some(0x05u8),
{
    lemma_key_name_lengths();
    reveal_strlit("b");
    assert("b"@ =~= seq!['b']);
    lemma_no_separators(seq!['b']);
    assert("b"@ != "a"@) by { reveal_strlit("a"); assert("b"@[0] == 'b' && "a"@[0] == 'a'); }
}

proof fn lemma_key_code_c()
    ensures
        spec_get_key_code("c"@) == Some(0x06u8),
{
    lemma_key_name_lengths();
    reveal_strlit("c");
    assert("c"@ =~= seq!['c']);
    lemma_no_separators(seq!['c']);
    assert("c"@ != "a"@) by { reveal_strlit("a"); assert("c"@[0] == 'c' && "a"@[0] == 'a'); }
    assert("c"@ != "b"@) by { reveal_strlit("b"); assert("c"@[0] == 'c' && "b"@[0] == 'b'); }
}

proof fn lemma_key_code_d()
    ensures
        spec_get_key_code("d"@) == Some(0x07u8),
{
    lemma_key_name_lengths();
    reveal_strlit("d");
    assert("d"@ =~= seq!['d']);
    lemma_no_separators(seq!['d']);
    assert("d"@ != "a"@) by { reveal_strlit("a"); assert("d"@[0] == 'd' && "a"@[0] == 'a'); }
    assert("d"@ != "b"@) by { reveal_strlit("b"); assert("d"@[0] == 'd' && "b"@[0] == 'b'); }
    assert("d"@ != "c"@) by { reveal_strlit("c"); assert("d"@[0] == 'd' && "c"@[0] == 'c'); }
}

proof fn lemma_key_code_e()
    ensures
        spec_get_key_code("e"@) == Some(0x08u8),
{
    lemma_key_name_lengths();
    reveal_strlit("e");
    assert("e"@ =~= seq!['e']);
    lemma_no_separators(seq!['e']);
    assert("e"@ != "a"@) by { reveal_strlit("a"); assert("e"@[0] == 'e' && "a"@[0] == 'a'); }
    assert("e"@ != "b"@) by { reveal_strlit("b"); assert("e"@[0] == 'e' && "b"@[0] == 'b'); }
    assert("e"@ != "c"@) by { reveal_strlit("c"); assert("e"@[0] == 'e' && "c"@[0] == 'c'); }
    assert("e"@ != "d"@) by { reveal_strlit("d"); assert("e"@[0] == 'e' && "d"@[0] == 'd'); }
}

proof fn lemma_key_code_f()
    ensures
        spec_get_key_code("f"@) == Some(0x09u8),
{
    lemma_key_name_lengths();
    reveal_strlit("f");
    assert("f"@ =~= seq!['f']);
    lemma_no_separators(seq!['f']);
    assert("f"@ != "a"@) by { reveal_strlit("a"); assert("f"@[0] == 'f' && "a"@[0] == 'a'); }
    assert("f"@ != "b"@) by { reveal_strlit("b"); assert("f"@[0] == 'f' && "b"@[0] == 'b'); }
    assert("f"@ != "c"@) by { reveal_strlit("c"); assert("f"@[0] == 'f' && "c"@[0] == 'c'); }
    assert("f"@ != "d"@) by { reveal_strlit("d"); assert("f"@[0] == 'f' && "d"@[0] == 'd'); }
    assert("f"@ != "e"@) by { reveal_strlit("e"); assert("f"@[0] == 'f' && "e"@[0] == 'e'); }
}

proof fn lemma_key_code_g()
    ensures
        spec_get_key_code("g"@) == Some(0x0Au8),
{
    lemma_key_name_lengths();
    reveal_strlit("g");
    assert("g"@ =~= seq!['g']);
    lemma_no_separators(seq!['g']);
    assert("g"@ != "a"@) by { reveal_strlit("a"); assert("g"@[0] == 'g' && "a"@[0] == 'a'); }
    assert("g"@ != "b"@) by { reveal_strlit("b"); assert("g"@[0] == 'g' && "b"@[0] == 'b'); }
    assert("g"@ != "c"@) by { reveal_strlit("c"); assert("g"@[0] == 'g' && "c"@[0] == 'c'); }
    assert("g"@ != "d"@) by { reveal_strlit("d"); assert("g"@[0] == 'g' && "d"@[0] == 'd'); }
    assert("g"@ != "e"@) by { reveal_strlit("e"); assert("g"@[0] == 'g' && "e"@[0] == 'e'); }
    assert("g"@ != "f"@) by { reveal_strlit("f"); assert("g"@[0] == 'g' && "f"@[0] == 'f'); }
}

proof fn lemma_key_code_h()
    ensures
        spec_get_key_code("h"@) == Some(0x0Bu8),
{
    lemma_key_name_lengths();
    reveal_strlit("h");
    assert("h"@ =~= seq!['h']);
    lemma_no_separators(seq!['h']);
    assert("h"@ != "a"@) by { reveal_strlit("a"); assert("h"@[0] == 'h' && "a"@[0] == 'a'); }
    assert("h"@ != "b"@) by { reveal_strlit("b"); assert("h"@[0] == 'h' && "b"@[0] == 'b'); }
    assert("h"@ != "c"@) by { reveal_strlit("c"); assert("h"@[0] == 'h' && "c"@[0] == 'c'); }
    assert("h"@ != "d"@) by { reveal_strlit("d"); assert("h"@[0] == 'h' && "d"@[0] == 'd'); }
    assert("h"@ != "e"@) by { reveal_strlit("e"); assert("h"@[0] == 'h' && "e"@[0] == 'e'); }
    assert("h"@ != "f"@) by { reveal_strlit("f"); assert("h"@[0] == 'h' && "f"@[0] == 'f'); }
    assert("h"@ != "g"@) by { reveal_strlit("g"); assert("h"@[0] == 'h' && "g"@[0] == 'g'); }
}

proof fn lemma_key_code_i()
    ensures
        spec_get_key_code("i"@) == Some(0x0Cu8),
{
    lemma_key_name_lengths();
    reveal_strlit("i");
    assert("i"@ =~= seq!['i']);
    lemma_no_separators(seq!['i']);
    assert("i"@ != "a"@) by { reveal_strlit("a"); assert("i"@[0] == 'i' && "a"@[0] == 'a'); }
    assert("i"@ != "b"@) by { reveal_strlit("b"); assert("i"@[0] == 'i' && "b"@[0] == 'b'); }
    assert("i"@ != "c"@) by { reveal_strlit("c"); assert("i"@[0] == 'i' && "c"@[0] == 'c'); }
    assert("i"@ != "d"@) by { reveal_strlit("d"); assert("i"@[0] == 'i' && "d"@[0] == 'd'); }
    assert("i"@ != "e"@) by { reveal_strlit("e"); assert("i"@[0] == 'i' && "e"@[0] == 'e'); }
    assert("i"@ != "f"@) by { reveal_strlit("f"); assert("i"@[0] == 'i' && "f"@[0] == 'f'); }
    assert("i"@ != "g"@) by { reveal_strlit("g"); assert("i"@[0] == 'i' && "g"@[0] == 'g'); }
    assert("i"@ != "h"@) by { reveal_strlit("h"); assert("i"@[0] == 'i' && "h"@[0] == 'h'); }
}

proof fn lemma_key_code_j()
    ensures
        spec_get_key_code("j"@) == Some(0x0Du8),
{
    lemma_key_name_lengths();
    reveal_strlit("j");
    assert("j"@ =~= seq!['j']);
    lemma_no_separators(seq!['j']);
    assert("j"@ != "a"@) by { reveal_strlit("a"); assert("j"@[0] == 'j' && "a"@[0] == 'a'); }
    assert("j"@ != "b"@) by { reveal_strlit("b"); assert("j"@[0] == 'j' && "b"@[0] == 'b'); }
    assert("j"@ != "c"@) by { reveal_strlit("c"); assert("j"@[0] == 'j' && "c"@[0] == 'c'); }
    assert("j"@ != "d"@) by { reveal_strlit("d"); assert("j"@[0] == 'j' && "d"@[0] == 'd'); }
    assert("j"@ != "e"@) by { reveal_strlit("e"); assert("j"@[0] == 'j' && "e"@[0] == 'e'); }
    assert("j"@ != "f"@) by { reveal_strlit("f"); assert("j"@[0] == 'j' && "f"@[0] == 'f'); }
    assert("j"@ != "g"@) by { reveal_strlit("g"); assert("j"@[0] == 'j' && "g"@[0] == 'g'); }
    assert("j"@ != "h"@) by { reveal_strlit("h"); assert("j"@[0] == 'j' && "h"@[0] == 'h'); }
    assert("j"@ != "i"@) by { reveal_strlit("i"); assert("j"@[0] == 'j' && "i"@[0] == 'i'); }
}

proof fn lemma_key_code_k()
    ensures
        spec_get_key_code("k"@) == Some(0x0Eu8),
{
    lemma_key_name_lengths();
    reveal_strlit("k");
    assert("k"@ =~= seq!['k']);
    lemma_no_separators(seq!['k']);
    assert("k"@ != "a"@) by { reveal_strlit("a"); assert("k"@[0] == 'k' && "a"@[0] == 'a'); }
    assert("k"@ != "b"@) by { reveal_strlit("b"); assert("k"@[0] == 'k' && "b"@[0] == 'b'); }
    assert("k"@ != "c"@) by { reveal_strlit("c"); assert("k"@[0] == 'k' && "c"@[0] == 'c'); }
    assert("k"@ != "d"@) by { reveal_strlit("d"); assert("k"@[0] == 'k' && "d"@[0] == 'd'); }
    assert("k"@ != "e"@) by { reveal_strlit("e"); assert("k"@[0] == 'k' && "e"@[0] == 'e'); }
    assert("k"@ != "f"@) by { reveal_strlit("f"); assert("k"@[0] == 'k' && "f"@[0] == 'f'); }
    assert("k"@ != "g"@) by { reveal_strlit("g"); assert("k"@[0] == 'k' && "g"@[0] == 'g'); }
    assert("k"@ != "h"@) by { reveal_strlit("h"); assert("k"@[0] == 'k' && "h"@[0] == 'h'); }
    assert("k"@ != "i"@) by { reveal_strlit("i"); assert("k"@[0] == 'k' && "i"@[0] == 'i'); }
    assert("k"@ != "j"@) by { reveal_strlit("j"); assert("k"@[0] == 'k' && "j"@[0] == 'j'); }
}

proof fn lemma_key_code_l()
    ensures
        spec_get_key_code("l"@) == Some(0x0Fu8),
{
    lemma_key_name_lengths();
    reveal_strlit("l");
    assert("l"@ =~= seq!['l']);
    lemma_no_separators(seq!['l']);
    assert("l"@ != "a"@) by { reveal_strlit("a"); assert("l"@[0] == 'l' && "a"@[0] == 'a'); }
    assert("l"@ != "b"@) by { reveal_strlit("b"); assert("l"@[0] == 'l' && "b"@[0] == 'b'); }
    assert("l"@ != "c"@) by { reveal_strlit("c"); assert("l"@[0] == 'l' && "c"@[0] == 'c'); }
    assert("l"@ != "d"@) by { reveal_strlit("d"); assert("l"@[0] == 'l' && "d"@[0] == 'd'); }
    assert("l"@ != "e"@) by { reveal_strlit("e"); assert("l"@[0] == 'l' && "e"@[0] == 'e'); }
    assert("l"@ != "f"@) by { reveal_strlit("f"); assert("l"@[0] == 'l' && "f"@[0] == 'f'); }
    assert("l"@ != "g"@) by { reveal_strlit("g"); assert("l"@[0] == 'l' && "g"@[0] == 'g'); }
    assert("l"@ != "h"@) by { reveal_strlit("h"); assert("l"@[0] == 'l' && "h"@[0] == 'h'); }
    assert("l"@ != "i"@) by { reveal_strlit("i"); assert("l"@[0] == 'l' && "i"@[0] == 'i'); }
    assert("l"@ != "j"@) by { reveal_strlit("j"); assert("l"@[0] == 'l' && "j"@[0] == 'j'); }
    assert("l"@ != "k"@) by { reveal_strlit("k"); assert("l"@[0] == 'l' && "k"@[0] == 'k'); }
}

proof fn lemma_key_code_m()
    ensures
        spec_get_key_code("m"@) == Some(0x10u8),
{
    lemma_key_name_lengths();
    reveal_strlit("m");
    assert("m"@ =~= seq!['m']);
    lemma_no_separators(seq!['m']);
    assert("m"@ != "a"@) by { reveal_strlit("a"); assert("m"@[0] == 'm' && "a"@[0] == 'a'); }
    assert("m"@ != "b"@) by { reveal_strlit("b"); assert("m"@[0] == 'm' && "b"@[0] == 'b'); }
    assert("m"@ != "c"@) by { reveal_strlit("c"); assert("m"@[0] == 'm' && "c"@[0] == 'c'); }
    assert("m"@ != "d"@) by { reveal_strlit("d"); assert("m"@[0] == 'm' && "d"@[0] == 'd'); }
    assert("m"@ != "e"@) by { reveal_strlit("e"); assert("m"@[0] == 'm' && "e"@[0] == 'e'); }
    assert("m"@ != "f"@) by { reveal_strlit("f"); assert("m"@[0] == 'm' && "f"@[0] == 'f'); }
    assert("m"@ != "g"@) by { reveal_strlit("g"); assert("m"@[0] == 'm' && "g"@[0] == 'g'); }
    assert("m"@ != "h"@) by { reveal_strlit("h"); assert("m"@[0] == 'm' && "h"@[0] == 'h'); }
    assert("m"@ != "i"@) by { reveal_strlit("i"); assert("m"@[0] == 'm' && "i"@[0] == 'i'); }
    assert("m"@ != "j"@) by { reveal_strlit("j"); assert("m"@[0] == 'm' && "j"@[0] == 'j'); }
    assert("m"@ != "k"@) by { reveal_strlit("k"); assert("m"@[0] == 'm' && "k"@[0] == 'k'); }
    assert("m"@ != "l"@) by { reveal_strlit("l"); assert("m"@[0] == 'm' && "l"@[0] == 'l'); }
}

proof fn lemma_key_code_n()
    ensures
        spec_get_key_code("n"@) == Some(0x11u8),
{
    lemma_key_name_lengths();
    reveal_strlit("n");
    assert("n"@ =~= seq!['n']);
    lemma_no_separators(seq!['n']);
    assert("n"@ != "a"@) by { reveal_strlit("a"); assert("n"@[0] == 'n' && "a"@[0] == 'a'); }
    assert("n"@ != "b"@) by { reveal_strlit("b"); assert("n"@[0] == 'n' && "b"@[0] == 'b'); }
    assert("n"@ != "c"@) by { reveal_strlit("c"); assert("n"@[0] == 'n' && "c"@[0] == 'c'); }
    assert("n"@ != "d"@) by { reveal_strlit("d"); assert("n"@[0] == 'n' && "d"@[0] == 'd'); }
    assert("n"@ != "e"@) by { reveal_strlit("e"); assert("n"@[0] == 'n' && "e"@[0] == 'e'); }
    assert("n"@ != "f"@) by { reveal_strlit("f"); assert("n"@[0] == 'n' && "f"@[0] == 'f'); }
    assert("n"@ != "g"@) by { reveal_strlit("g"); assert("n"@[0] == 'n' && "g"@[0] == 'g'); }
    assert("n"@ != "h"@) by { reveal_strlit("h"); assert("n"@[0] == 'n' && "h"@[0] == 'h'); }
    assert("n"@ != "i"@) by { reveal_strlit("i"); assert("n"@[0] == 'n' && "i"@[0] == 'i'); }
    assert("n"@ != "j"@) by { reveal_strlit("j"); assert("n"@[0] == 'n' && "j"@[0] == 'j'); }
    assert("n"@ != "k"@) by { reveal_strlit("k"); assert("n"@[0] == 'n' && "k"@[0] == 'k'); }
    assert("n"@ != "l"@) by { reveal_strlit("l"); assert("n"@[0] == 'n' && "l"@[0] == 'l'); }
    assert("n"@ != "m"@) by { reveal_strlit("m"); assert("n"@[0] == 'n' && "m"@[0] == 'm'); }
}

proof fn lemma_key_code_o()
    ensures
        spec_get_key_code("o"@) == Some(0x12u8),
{
    lemma_key_name_lengths();
    reveal_strlit("o");
    assert("o"@ =~= seq!['o']);
    lemma_no_separators(seq!['o']);
    assert("o"@ != "a"@) by { reveal_strlit("a"); assert("o"@[0] == 'o' && "a"@[0] == 'a'); }
    assert("o"@ != "b"@) by { reveal_strlit("b"); assert("o"@[0] == 'o' && "b"@[0] == 'b'); }
    assert("o"@ != "c"@) by { reveal_strlit("c"); assert("o"@[0] == 'o' && "c"@[0] == 'c'); }
    assert("o"@ != "d"@) by { reveal_strlit("d"); assert("o"@[0] == 'o' && "d"@[0] == 'd'); }
    assert("o"@ != "e"@) by { reveal_strlit("e"); assert("o"@[0] == 'o' && "e"@[0] == 'e'); }
    assert("o"@ != "f"@) by { reveal_strlit("f"); assert("o"@[0] == 'o' && "f"@[0] == 'f'); }
    assert("o"@ != "g"@) by { reveal_strlit("g"); assert("o"@[0] == 'o' && "g"@[0] == 'g'); }
    assert("o"@ != "h"@) by { reveal_strlit("h"); assert("o"@[0] == 'o' && "h"@[0] == 'h'); }
    assert("o"@ != "i"@) by { reveal_strlit("i"); assert("o"@[0] == 'o' && "i"@[0] == 'i'); }
    assert("o"@ != "j"@) by { reveal_strlit("j"); assert("o"@[0] == 'o' && "j"@[0] == 'j'); }
    assert("o"@ != "k"@) by { reveal_strlit("k"); assert("o"@[0] == 'o' && "k"@[0] == 'k'); }
    assert("o"@ != "l"@) by { reveal_strlit("l"); assert("o"@[0] == 'o' && "l"@[0] == 'l'); }
    assert("o"@ != "m"@) by { reveal_strlit("m"); assert("o"@[0] == 'o' && "m"@[0] == 'm'); }
    assert("o"@ != "n"@) by { reveal_strlit("n"); assert("o"@[0] == 'o' && "n"@[0] == 'n'); }
}

proof fn lemma_key_code_p()
    ensures
        spec_get_key_code("p"@) == Some(0x13u8),
{
    lemma_key_name_lengths();
    reveal_strlit("p");
    assert("p"@ =~= seq!['p']);
    lemma_no_separators(seq!['p']);
    assert("p"@ != "a"@) by { reveal_strlit("a"); assert("p"@[0] == 'p' && "a"@[0] == 'a'); }
    assert("p"@ != "b"@) by { reveal_strlit("b"); assert("p"@[0] == 'p' && "b"@[0] == 'b'); }
    assert("p"@ != "c"@) by { reveal_strlit("c"); assert("p"@[0] == 'p' && "c"@[0] == 'c'); }
    assert("p"@ != "d"@) by { reveal_strlit("d"); assert("p"@[0] == 'p' && "d"@[0] == 'd'); }
    assert("p"@ != "e"@) by { reveal_strlit("e"); assert("p"@[0] == 'p' && "e"@[0] == 'e'); }
    assert("p"@ != "f"@) by { reveal_strlit("f"); assert("p"@[0] == 'p' && "f"@[0] == 'f'); }
    assert("p"@ != "g"@) by { reveal_strlit("g"); assert("p"@[0] == 'p' && "g"@[0] == 'g'); }
    assert("p"@ != "h"@) by { reveal_strlit("h"); assert("p"@[0] == 'p' && "h"@[0] == 'h'); }
    assert("p"@ != "i"@) by { reveal_strlit("i"); assert("p"@[0] == 'p' && "i"@[0] == 'i'); }
    assert("p"@ != "j"@) by { reveal_strlit("j"); assert("p"@[0] == 'p' && "j"@[0] == 'j'); }
    assert("p"@ != "k"@) by { reveal_strlit("k"); assert("p"@[0] == 'p' && "k"@[0] == 'k'); }
    assert("p"@ != "l"@) by { reveal_strlit("l"); assert("p"@[0] == 'p' && "l"@[0] == 'l'); }
    assert("p"@ != "m"@) by { reveal_strlit("m"); assert("p"@[0] == 'p' && "m"@[0] == 'm'); }
    assert("p"@ != "n"@) by { reveal_strlit("n"); assert("p"@[0] == 'p' && "n"@[0] == 'n'); }
    assert("p"@ != "o"@) by { reveal_strlit("o"); assert("p"@[0] == 'p' && "o"@[0] == 'o'); }
}

proof fn lemma_key_code_q()
    ensures
        spec_get_key_code("q"@) == Some(0x14u8),
{
    lemma_key_name_lengths();
    reveal_strlit("q");
    assert("q"@ =~= seq!['q']);
    lemma_no_separators(seq!['q']);
    assert("q"@ != "a"@) by { reveal_strlit("a"); assert("q"@[0] == 'q' && "a"@[0] == 'a'); }
    assert("q"@ != "b"@) by { reveal_strlit("b"); assert("q"@[0] == 'q' && "b"@[0] == 'b'); }
    assert("q"@ != "c"@) by { reveal_strlit("c"); assert("q"@[0] == 'q' && "c"@[0] == 'c'); }
    assert("q"@ != "d"@) by { reveal_strlit("d"); assert("q"@[0] == 'q' && "d"@[0] == 'd'); }
    assert("q"@ != "e"@) by { reveal_strlit("e"); assert("q"@[0] == 'q' && "e"@[0] == 'e'); }
    assert("q"@ != "f"@) by { reveal_strlit("f"); assert("q"@[0] == 'q' && "f"@[0] == 'f'); }
    assert("q"@ != "g"@) by { reveal_strlit("g"); assert("q"@[0] == 'q' && "g"@[0] == 'g'); }
    assert("q"@ != "h"@) by { reveal_strlit("h"); assert("q"@[0] == 'q' && "h"@[0] == 'h'); }
    assert("q"@ != "i"@) by { reveal_strlit("i"); assert("q"@[0] == 'q' && "i"@[0] == 'i'); }
    assert("q"@ != "j"@) by { reveal_strlit("j"); assert("q"@[0] == 'q' && "j"@[0] == 'j'); }
    assert("q"@ != "k"@) by { reveal_strlit("k"); assert("q"@[0] == 'q' && "k"@[0] == 'k'); }
    assert("q"@ != "l"@) by { reveal_strlit("l"); assert("q"@[0] == 'q' && "l"@[0] == 'l'); }
    assert("q"@ != "m"@) by { reveal_strlit("m"); assert("q"@[0] == 'q' && "m"@[0] == 'm'); }
    assert("q"@ != "n"@) by { reveal_strlit("n"); assert("q"@[0] == 'q' && "n"@[0] == 'n'); }
    assert("q"@ != "o"@) by { reveal_strlit("o"); assert("q"@[0] == 'q' && "o"@[0] == 'o'); }
    assert("q"@ != "p"@) by { reveal_strlit("p"); assert("q"@[0] == 'q' && "p"@[0] == 'p'); }
}

proof fn lemma_key_code_r()
    ensures
        spec_get_key_code("r"@) == Some(0x15u8),
{
    lemma_key_name_lengths();
    reveal_strlit("r");
    assert("r"@ =~= seq!['r']);
    lemma_no_separators(seq!['r']);
    assert("r"@ != "a"@) by { reveal_strlit("a"); assert("r"@[0] == 'r' && "a"@[0] == 'a'); }
    assert("r"@ != "b"@) by { reveal_strlit("b"); assert("r"@[0] == 'r' && "b"@[0] == 'b'); }
    assert("r"@ != "c"@) by { reveal_strlit("c"); assert("r"@[0] == 'r' && "c"@[0] == 'c'); }
    assert("r"@ != "d"@) by { reveal_strlit("d"); assert("r"@[0] == 'r' && "d"@[0] == 'd'); }
    assert("r"@ != "e"@) by { reveal_strlit("e"); assert("r"@[0] == 'r' && "e"@[0] == 'e'); }
    assert("r"@ != "f"@) by { reveal_strlit("f"); assert("r"@[0] == 'r' && "f"@[0] == 'f'); }
    assert("r"@ != "g"@) by { reveal_strlit("g"); assert("r"@[0] == 'r' && "g"@[0] == 'g'); }
    assert("r"@ != "h"@) by { reveal_strlit("h"); assert("r"@[0] == 'r' && "h"@[0] == 'h'); }
    assert("r"@ != "i"@) by { reveal_strlit("i"); assert("r"@[0] == 'r' && "i"@[0] == 'i'); }
    assert("r"@ != "j"@) by { reveal_strlit("j"); assert("r"@[0] == 'r' && "j"@[0] == 'j'); }
    assert("r"@ != "k"@) by { reveal_strlit("k"); assert("r"@[0] == 'r' && "k"@[0] == 'k'); }
    assert("r"@ != "l"@) by { reveal_strlit("l"); assert("r"@[0] == 'r' && "l"@[0] == 'l'); }
    assert("r"@ != "m"@) by { reveal_strlit("m"); assert("r"@[0] == 'r' && "m"@[0] == 'm'); }
    assert("r"@ != "n"@) by { reveal_strlit("n"); assert("r"@[0] == 'r' && "n"@[0] == 'n'); }
    assert("r"@ != "o"@) by { reveal_strlit("o"); assert("r"@[0] == 'r' && "o"@[0] == 'o'); }
    assert("r"@ != "p"@) by { reveal_strlit("p"); assert("r"@[0] == 'r' && "p"@[0] == 'p'); }
    assert("r"@ != "q"@) by { reveal_strlit("q"); assert("r"@[0] == 'r' && "q"@[0] == 'q'); }
}

proof fn lemma_key_code_s()
    ensures
        spec_get_key_code("s"@) == Some(0x16u8),
{
    lemma_key_name_lengths();
    reveal_strlit("s");
    assert("s"@ =~= seq!['s']);
    lemma_no_separators(seq!['s']);
    assert("s"@ != "a"@) by { reveal_strlit("a"); assert("s"@[0] == 's' && "a"@[0] == 'a'); }
    assert("s"@ != "b"@) by { reveal_strlit("b"); assert("s"@[0] == 's' && "b"@[0] == 'b'); }
    assert("s"@ != "c"@) by { reveal_strlit("c"); assert("s"@[0] == 's' && "c"@[0] == 'c'); }
    assert("s"@ != "d"@) by { reveal_strlit("d"); assert("s"@[0] == 's' && "d"@[0] == 'd'); }
    assert("s"@ != "e"@) by { reveal_strlit("e"); assert("s"@[0] == 's' && "e"@[0] == 'e'); }
    assert("s"@ != "f"@) by { reveal_strlit("f"); assert("s"@[0] == 's' && "f"@[0] == 'f'); }
    assert("s"@ != "g"@) by { reveal_strlit("g"); assert("s"@[0] == 's' && "g"@[0] == 'g'); }
    assert("s"@ != "h"@) by { reveal_strlit("h"); assert("s"@[0] == 's' && "h"@[0] == 'h'); }
    assert("s"@ != "i"@) by { reveal_strlit("i"); assert("s"@[0] == 's' && "i"@[0] == 'i'); }
    assert("s"@ != "j"@) by { reveal_strlit("j"); assert("s"@[0] == 's' && "j"@[0] == 'j'); }
    assert("s"@ != "k"@) by { reveal_strlit("k"); assert("s"@[0] == 's' && "k"@[0] == 'k'); }
    assert("s"@ != "l"@) by { reveal_strlit("l"); assert("s"@[0] == 's' && "l"@[0] == 'l'); }
    assert("s"@ != "m"@) by { reveal_strlit("m"); assert("s"@[0] == 's' && "m"@[0] == 'm'); }
    assert("s"@ != "n"@) by { reveal_strlit("n"); assert("s"@[0] == 's' && "n"@[0] == 'n'); }
    assert("s"@ != "o"@) by { reveal_strlit("o"); assert("s"@[0] == 's' && "o"@[0] == 'o'); }
    assert("s"@ != "p"@) by { reveal_strlit("p"); assert("s"@[0] == 's' && "p"@[0] == 'p'); }
    assert("s"@ != "q"@) by { reveal_strlit("q"); assert("s"@[0] == 's' && "q"@[0] == 'q'); }
    assert("s"@ != "r"@) by { reveal_strlit("r"); assert("s"@[0] == 's' && "r"@[0] == 'r'); }
}

proof fn lemma_key_code_t()
    ensures
        spec_get_key_code("t"@) == Some(0x17u8),
{
    lemma_key_name_lengths();
    reveal_strlit("t");
    assert("t"@ =~= seq!['t']);
    lemma_no_separators(seq!['t']);
    assert("t"@ != "a"@) by { reveal_strlit("a"); assert("t"@[0] == 't' && "a"@[0] == 'a'); }
    assert("t"@ != "b"@) by { reveal_strlit("b"); assert("t"@[0] == 't' && "b"@[0] == 'b'); }
    assert("t"@ != "c"@) by { reveal_strlit("c"); assert("t"@[0] == 't' && "c"@[0] == 'c'); }
    assert("t"@ != "d"@) by { reveal_strlit("d"); assert("t"@[0] == 't' && "d"@[0] == 'd'); }
    assert("t"@ != "e"@) by { reveal_strlit("e"); assert("t"@[0] == 't' && "e"@[0] == 'e'); }
    assert("t"@ != "f"@) by { reveal_strlit("f"); assert("t"@[0] == 't' && "f"@[0] == 'f'); }
    assert("t"@ != "g"@) by { reveal_strlit("g"); assert("t"@[0] == 't' && "g"@[0] == 'g'); }
    assert("t"@ != "h"@) by { reveal_strlit("h"); assert("t"@[0] == 't' && "h"@[0] == 'h'); }
    assert("t"@ != "i"@) by { reveal_strlit("i"); assert("t"@[0] == 't' && "i"@[0] == 'i'); }
    assert("t"@ != "j"@) by { reveal_strlit("j"); assert("t"@[0] == 't' && "j"@[0] == 'j'); }
    assert("t"@ != "k"@) by { reveal_strlit("k"); assert("t"@[0] == 't' && "k"@[0] == 'k'); }
    assert("t"@ != "l"@) by { reveal_strlit("l"); assert("t"@[0] == 't' && "l"@[0] == 'l'); }
    assert("t"@ != "m"@) by { reveal_strlit("m"); assert("t"@[0] == 't' && "m"@[0] == 'm'); }
    assert("t"@ != "n"@) by { reveal_strlit("n"); assert("t"@[0] == 't' && "n"@[0] == 'n'); }
    assert("t"@ != "o"@) by { reveal_strlit("o"); assert("t"@[0] == 't' && "o"@[0] == 'o'); }
    assert("t"@ != "p"@) by { reveal_strlit("p"); assert("t"@[0] == 't' && "p"@[0] == 'p'); }
    assert("t"@ != "q"@) by { reveal_strlit("q"); assert("t"@[0] == 't' && "q"@[0] == 'q'); }
    assert("t"@ != "r"@) by { reveal_strlit("r"); assert("t"@[0] == 't' && "r"@[0] == 'r'); }
    assert("t"@ != "s"@) by { reveal_strlit("s"); assert("t"@[0] == 't' && "s"@[0] == 's'); }
}

proof fn lemma_key_code_u()
    ensures
        spec_get_key_code("u"@) == Some(0x18u8),
{
    lemma_key_name_lengths();
    reveal_strlit("u");
    assert("u"@ =~= seq!['u']);
    lemma_no_separators(seq!['u']);
    assert("u"@ != "a"@) by { reveal_strlit("a"); assert("u"@[0] == 'u' && "a"@[0] == 'a'); }
    assert("u"@ != "b"@) by { reveal_strlit("b"); assert("u"@[0] == 'u' && "b"@[0] == 'b'); }
    assert("u"@ != "c"@) by { reveal_strlit("c"); assert("u"@[0] == 'u' && "c"@[0] == 'c'); }
    assert("u"@ != "d"@) by { reveal_strlit("d"); assert("u"@[0] == 'u' && "d"@[0] == 'd'); }
    assert("u"@ != "e"@) by { reveal_strlit("e"); assert("u"@[0] == 'u' && "e"@[0] == 'e'); }
    assert("u"@ != "f"@) by { reveal_strlit("f"); assert("u"@[0] == 'u' && "f"@[0] == 'f'); }
    assert("u"@ != "g"@) by { reveal_strlit("g"); assert("u"@[0] == 'u' && "g"@[0] == 'g'); }
    assert("u"@ != "h"@) by { reveal_strlit("h"); assert("u"@[0] == 'u' && "h"@[0] == 'h'); }
    assert("u"@ != "i"@) by { reveal_strlit("i"); assert("u"@[0] == 'u' && "i"@[0] == 'i'); }
    assert("u"@ != "j"@) by { reveal_strlit("j"); assert("u"@[0] == 'u' && "j"@[0] == 'j'); }
    assert("u"@ != "k"@) by { reveal_strlit("k"); assert("u"@[0] == 'u' && "k"@[0] == 'k'); }
    assert("u"@ != "l"@) by { reveal_strlit("l"); assert("u"@[0] == 'u' && "l"@[0] == 'l'); }
    assert("u"@ != "m"@) by { reveal_strlit("m"); assert("u"@[0] == 'u' && "m"@[0] == 'm'); }
    assert("u"@ != "n"@) by { reveal_strlit("n"); assert("u"@[0] == 'u' && "n"@[0] == 'n'); }
    assert("u"@ != "o"@) by { reveal_strlit("o"); assert("u"@[0] == 'u' && "o"@[0] == 'o'); }
    assert("u"@ != "p"@) by { reveal_strlit("p"); assert("u"@[0] == 'u' && "p"@[0] == 'p'); }
    assert("u"@ != "q"@) by { reveal_strlit("q"); assert("u"@[0] == 'u' && "q"@[0] == 'q'); }
    assert("u"@ != "r"@) by { reveal_strlit("r"); assert("u"@[0] == 'u' && "r"@[0] == 'r'); }
    assert("u"@ != "s"@) by { reveal_strlit("s"); assert("u"@[0] == 'u' && "s"@[0] == 's'); }
    assert("u"@ != "t"@) by { reveal_strlit("t"); assert("u"@[0] == 'u' && "t"@[0] == 't'); }
}

proof fn lemma_key_code_v()
    ensures
        spec_get_key_code("v"@) == Some(0x19u8),
{
    lemma_key_name_lengths();
    reveal_strlit("v");
    assert("v"@ =~= seq!['v']);
    lemma_no_separators(seq!['v']);
    assert("v"@ != "a"@) by { reveal_strlit("a"); assert("v"@[0] == 'v' && "a"@[0] == 'a'); }
    assert("v"@ != "b"@) by { reveal_strlit("b"); assert("v"@[0] == 'v' && "b"@[0] == 'b'); }
    assert("v"@ != "c"@) by { reveal_strlit("c"); assert("v"@[0] == 'v' && "c"@[0] == 'c'); }
    assert("v"@ != "d"@) by { reveal_strlit("d"); assert("v"@[0] == 'v' && "d"@[0] == 'd'); }
    assert("v"@ != "e"@) by { reveal_strlit("e"); assert("v"@[0] == 'v' && "e"@[0] == 'e'); }
    assert("v"@ != "f"@) by { reveal_strlit("f"); assert("v"@[0] == 'v' && "f"@[0] == 'f'); }
    assert("v"@ != "g"@) by { reveal_strlit("g"); assert("v"@[0] == 'v' && "g"@[0] == 'g'); }
    assert("v"@ != "h"@) by { reveal_strlit("h"); assert("v"@[0] == 'v' && "h"@[0] == 'h'); }
    assert("v"@ != "i"@) by { reveal_strlit("i"); assert("v"@[0] == 'v' && "i"@[0] == 'i'); }
    assert("v"@ != "j"@) by { reveal_strlit("j"); assert("v"@[0] == 'v' && "j"@[0] == 'j'); }
    assert("v"@ != "k"@) by { reveal_strlit("k"); assert("v"@[0] == 'v' && "k"@[0] == 'k'); }
    assert("v"@ != "l"@) by { reveal_strlit("l"); assert("v"@[0] == 'v' && "l"@[0] == 'l'); }
    assert("v"@ != "m"@) by { reveal_strlit("m"); assert("v"@[0] == 'v' && "m"@[0] == 'm'); }
    assert("v"@ != "n"@) by { reveal_strlit("n"); assert("v"@[0] == 'v' && "n"@[0] == 'n'); }
    assert("v"@ != "o"@) by { reveal_strlit("o"); assert("v"@[0] == 'v' && "o"@[0] == 'o'); }
    assert("v"@ != "p"@) by { reveal_strlit("p"); assert("v"@[0] == 'v' && "p"@[0] == 'p'); }
    assert("v"@ != "q"@) by { reveal_strlit("q"); assert("v"@[0] == 'v' && "q"@[0] == 'q'); }
    assert("v"@ != "r"@) by { reveal_strlit("r"); assert("v"@[0] == 'v' && "r"@[0] == 'r'); }
    assert("v"@ != "s"@) by { reveal_strlit("s"); assert("v"@[0] == 'v' && "s"@[0] == 's'); }
    assert("v"@ != "t"@) by { reveal_strlit("t"); assert("v"@[0] == 'v' && "t"@[0] == 't'); }
    assert("v"@ != "u"@) by { reveal_strlit("u"); assert("v"@[0] == 'v' && "u"@[0] == 'u'); }
}

proof fn lemma_key_code_w()
    ensures
        spec_get_key_code("w"@) == Some(0x1Au8),
{
    lemma_key_name_lengths();
    reveal_strlit("w");
    assert("w"@ =~= seq!['w']);
    lemma_no_separators(seq!['w']);
    assert("w"@ != "a"@) by { reveal_strlit("a"); assert("w"@[0] == 'w' && "a"@[0] == 'a'); }
    assert("w"@ != "b"@) by { reveal_strlit("b"); assert("w"@[0] == 'w' && "b"@[0] == 'b'); }
    assert("w"@ != "c"@) by { reveal_strlit("c"); assert("w"@[0] == 'w' && "c"@[0] == 'c'); }
    assert("w"@ != "d"@) by { reveal_strlit("d"); assert("w"@[0] == 'w' && "d"@[0] == 'd'); }
    assert("w"@ != "e"@) by { reveal_strlit("e"); assert("w"@[0] == 'w' && "e"@[0] == 'e'); }
    assert("w"@ != "f"@) by { reveal_strlit("f"); assert("w"@[0] == 'w' && "f"@[0] == 'f'); }
    assert("w"@ != "g"@) by { reveal_strlit("g"); assert("w"@[0] == 'w' && "g"@[0] == 'g'); }
    assert("w"@ != "h"@) by { reveal_strlit("h"); assert("w"@[0] == 'w' && "h"@[0] == 'h'); }
    assert("w"@ != "i"@) by { reveal_strlit("i"); assert("w"@[0] == 'w' && "i"@[0] == 'i'); }
    assert("w"@ != "j"@) by { reveal_strlit("j"); assert("w"@[0] == 'w' && "j"@[0] == 'j'); }
    assert("w"@ != "k"@) by { reveal_strlit("k"); assert("w"@[0] == 'w' && "k"@[0] == 'k'); }
    assert("w"@ != "l"@) by { reveal_strlit("l"); assert("w"@[0] == 'w' && "l"@[0] == 'l'); }
    assert("w"@ != "m"@) by { reveal_strlit("m"); assert("w"@[0] == 'w' && "m"@[0] == 'm'); }
    assert("w"@ != "n"@) by { reveal_strlit("n"); assert("w"@[0] == 'w' && "n"@[0] == 'n'); }
    assert("w"@ != "o"@) by { reveal_strlit("o"); assert("w"@[0] == 'w' && "o"@[0] == 'o'); }
    assert("w"@ != "p"@) by { reveal_strlit("p"); assert("w"@[0] == 'w' && "p"@[0] == 'p'); }
    assert("w"@ != "q"@) by { reveal_strlit("q"); assert("w"@[0] == 'w' && "q"@[0] == 'q'); }
    assert("w"@ != "r"@) by { reveal_strlit("r"); assert("w"@[0] == 'w' && "r"@[0] == 'r'); }
    assert("w"@ != "s"@) by { reveal_strlit("s"); assert("w"@[0] == 'w' && "s"@[0] == 's'); }
    assert("w"@ != "t"@) by { reveal_strlit("t"); assert("w"@[0] == 'w' && "t"@[0] == 't'); }
    assert("w"@ != "u"@) by { reveal_strlit("u"); assert("w"@[0] == 'w' && "u"@[0] == 'u'); }
    assert("w"@ != "v"@) by { reveal_strlit("v"); assert("w"@[0] == 'w' && "v"@[0] == 'v'); }
}

proof fn lemma_key_code_x()
    ensures
        spec_get_key_code("x"@) == Some(0x1Bu8),
{
    lemma_key_name_lengths();
    reveal_strlit("x");
    assert("x"@ =~= seq!['x']);
    lemma_no_separators(seq!['x']);
    assert("x"@ != "a"@) by { reveal_strlit("a"); assert("x"@[0] == 'x' && "a"@[0] == 'a'); }
    assert("x"@ != "b"@) by { reveal_strlit("b"); assert("x"@[0] == 'x' && "b"@[0] == 'b'); }
    assert("x"@ != "c"@) by { reveal_strlit("c"); assert("x"@[0] == 'x' && "c"@[0] == 'c'); }
    assert("x"@ != "d"@) by { reveal_strlit("d"); assert("x"@[0] == 'x' && "d"@[0] == 'd'); }
    assert("x"@ != "e"@) by { reveal_strlit("e"); assert("x"@[0] == 'x' && "e"@[0] == 'e'); }
    assert("x"@ != "f"@) by { reveal_strlit("f"); assert("x"@[0] == 'x' && "f"@[0] == 'f'); }
    assert("x"@ != "g"@) by { reveal_strlit("g"); assert("x"@[0] == 'x' && "g"@[0] == 'g'); }
    assert("x"@ != "h"@) by { reveal_strlit("h"); assert("x"@[0] == 'x' && "h"@[0] == 'h'); }
    assert("x"@ != "i"@) by { reveal_strlit("i"); assert("x"@[0] == 'x' && "i"@[0] == 'i'); }
    assert("x"@ != "j"@) by { reveal_strlit("j"); assert("x"@[0] == 'x' && "j"@[0] == 'j'); }
    assert("x"@ != "k"@) by { reveal_strlit("k"); assert("x"@[0] == 'x' && "k"@[0] == 'k'); }
    assert("x"@ != "l"@) by { reveal_strlit("l"); assert("x"@[0] == 'x' && "l"@[0] == 'l'); }
    assert("x"@ != "m"@) by { reveal_strlit("m"); assert("x"@[0] == 'x' && "m"@[0] == 'm'); }
    assert("x"@ != "n"@) by { reveal_strlit("n"); assert("x"@[0] == 'x' && "n"@[0] == 'n'); }
    assert("x"@ != "o"@) by { reveal_strlit("o"); assert("x"@[0] == 'x' && "o"@[0] == 'o'); }
    assert("x"@ != "p"@) by { reveal_strlit("p"); assert("x"@[0] == 'x' && "p"@[0] == 'p'); }
    assert("x"@ != "q"@) by { reveal_strlit("q"); assert("x"@[0] == 'x' && "q"@[0] == 'q'); }
    assert("x"@ != "r"@) by { reveal_strlit("r"); assert("x"@[0] == 'x' && "r"@[0] == 'r'); }
    assert("x"@ != "s"@) by { reveal_strlit("s"); assert("x"@[0] == 'x' && "s"@[0] == 's'); }
    assert("x"@ != "t"@) by { reveal_strlit("t"); assert("x"@[0] == 'x' && "t"@[0] == 't'); }
    assert("x"@ != "u"@) by { reveal_strlit("u"); assert("x"@[0] == 'x' && "u"@[0] == 'u'); }
    assert("x"@ != "v"@) by { reveal_strlit("v"); assert("x"@[0] == 'x' && "v"@[0] == 'v'); }
    assert("x"@ != "w"@) by { reveal_strlit("w"); assert("x"@[0] == 'x' && "w"@[0] == 'w'); }
}

proof fn lemma_key_code_y()
    ensures
        spec_get_key_code("y"@) == Some(0x1Cu8),
{
    lemma_key_name_lengths();
    reveal_strlit("y");
    assert("y"@ =~= seq!['y']);
    lemma_no_separators(seq!['y']);
    assert("y"@ != "a"@) by { reveal_strlit("a"); assert("y"@[0] == 'y' && "a"@[0] == 'a'); }
    assert("y"@ != "b"@) by { reveal_strlit("b"); assert("y"@[0] == 'y' && "b"@[0] == 'b'); }
    assert("y"@ != "c"@) by { reveal_strlit("c"); assert("y"@[0] == 'y' && "c"@[0] == 'c'); }
    assert("y"@ != "d"@) by { reveal_strlit("d"); assert("y"@[0] == 'y' && "d"@[0] == 'd'); }
    assert("y"@ != "e"@) by { reveal_strlit("e"); assert("y"@[0] == 'y' && "e"@[0] == 'e'); }
    assert("y"@ != "f"@) by { reveal_strlit("f"); assert("y"@[0] == 'y' && "f"@[0] == 'f'); }
    assert("y"@ != "g"@) by { reveal_strlit("g"); assert("y"@[0] == 'y' && "g"@[0] == 'g'); }
    assert("y"@ != "h"@) by { reveal_strlit("h"); assert("y"@[0] == 'y' && "h"@[0] == 'h'); }
    assert("y"@ != "i"@) by { reveal_strlit("i"); assert("y"@[0] == 'y' && "i"@[0] == 'i'); }
    assert("y"@ != "j"@) by { reveal_strlit("j"); assert("y"@[0] == 'y' && "j"@[0] == 'j'); }
    assert("y"@ != "k"@) by { reveal_strlit("k"); assert("y"@[0] == 'y' && "k"@[0] == 'k'); }
    assert("y"@ != "l"@) by { reveal_strlit("l"); assert("y"@[0] == 'y' && "l"@[0] == 'l'); }
    assert("y"@ != "m"@) by { reveal_strlit("m"); assert("y"@[0] == 'y' && "m"@[0] == 'm'); }
    assert("y"@ != "n"@) by { reveal_strlit("n"); assert("y"@[0] == 'y' && "n"@[0] == 'n'); }
    assert("y"@ != "o"@) by { reveal_strlit("o"); assert("y"@[0] == 'y' && "o"@[0] == 'o'); }
    assert("y"@ != "p"@) by { reveal_strlit("p"); assert("y"@[0] == 'y' && "p"@[0] == 'p'); }
    assert("y"@ != "q"@) by { reveal_strlit("q"); assert("y"@[0] == 'y' && "q"@[0] == 'q'); }
    assert("y"@ != "r"@) by { reveal_strlit("r"); assert("y"@[0] == 'y' && "r"@[0] == 'r'); }
    assert("y"@ != "s"@) by { reveal_strlit("s"); assert("y"@[0] == 'y' && "s"@[0] == 's'); }
    assert("y"@ != "t"@) by { reveal_strlit("t"); assert("y"@[0] == 'y' && "t"@[0] == 't'); }
    assert("y"@ != "u"@) by { reveal_strlit("u"); assert("y"@[0] == 'y' && "u"@[0] == 'u'); }
    assert("y"@ != "v"@) by { reveal_strlit("v"); assert("y"@[0] == 'y' && "v"@[0] == 'v'); }
    assert("y"@ != "w"@) by { reveal_strlit("w"); assert("y"@[0] == 'y' && "w"@[0] == 'w'); }
    assert("y"@ != "x"@) by { reveal_strlit("x"); assert("y"@[0] == 'y' && "x"@[0] == 'x'); }
}

proof fn lemma_key_code_z()
    ensures
        spec_get_key_code("z"@) == Some(0x1Du8),
{
    lemma_key_name_lengths();
    reveal_strlit("z");
    assert("z"@ =~= seq!['z']);
    lemma_no_separators(seq!['z']);
    assert("z"@ != "a"@) by { reveal_strlit("a"); assert("z"@[0] == 'z' && "a"@[0] == 'a'); }
    assert("z"@ != "b"@) by { reveal_strlit("b"); assert("z"@[0] == 'z' && "b"@[0] == 'b'); }
    assert("z"@ != "c"@) by { reveal_strlit("c"); assert("z"@[0] == 'z' && "c"@[0] == 'c'); }
    assert("z"@ != "d"@) by { reveal_strlit("d"); assert("z"@[0] == 'z' && "d"@[0] == 'd'); }
    assert("z"@ != "e"@) by { reveal_strlit("e"); assert("z"@[0] == 'z' && "e"@[0] == 'e'); }
    assert("z"@ != "f"@) by { reveal_strlit("f"); assert("z"@[0] == 'z' && "f"@[0] == 'f'); }
    assert("z"@ != "g"@) by { reveal_strlit("g"); assert("z"@[0] == 'z' && "g"@[0] == 'g'); }
    assert("z"@ != "h"@) by { reveal_strlit("h"); assert("z"@[0] == 'z' && "h"@[0] == 'h'); }
    assert("z"@ != "i"@) by { reveal_strlit("i"); assert("z"@[0] == 'z' && "i"@[0] == 'i'); }
    assert("z"@ != "j"@) by { reveal_strlit("j"); assert("z"@[0] == 'z' && "j"@[0] == 'j'); }
    assert("z"@ != "k"@) by { reveal_strlit("k"); assert("z"@[0] == 'z' && "k"@[0] == 'k'); }
    assert("z"@ != "l"@) by { reveal_strlit("l"); assert("z"@[0] == 'z' && "l"@[0] == 'l'); }
    assert("z"@ != "m"@) by { reveal_strlit("m"); assert("z"@[0] == 'z' && "m"@[0] == 'm'); }
    assert("z"@ != "n"@) by { reveal_strlit("n"); assert("z"@[0] == 'z' && "n"@[0] == 'n'); }
    assert("z"@ != "o"@) by { reveal_strlit("o"); assert("z"@[0] == 'z' && "o"@[0] == 'o'); }
    assert("z"@ != "p"@) by { reveal_strlit("p"); assert("z"@[0] == 'z' && "p"@[0] == 'p'); }
    assert("z"@ != "q"@) by { reveal_strlit("q"); assert("z"@[0] == 'z' && "q"@[0] == 'q'); }
    assert("z"@ != "r"@) by { reveal_strlit("r"); assert("z"@[0] == 'z' && "r"@[0] == 'r'); }
    assert("z"@ != "s"@) by { reveal_strlit("s"); assert("z"@[0] == 'z' && "s"@[0] == 's'); }
    assert("z"@ != "t"@) by { reveal_strlit("t"); assert("z"@[0] == 'z' && "t"@[0] == 't'); }
    assert("z"@ != "u"@) by { reveal_strlit("u"); assert("z"@[0] == 'z' && "u"@[0] == 'u'); }
    assert("z"@ != "v"@) by { reveal_strlit("v"); assert("z"@[0] == 'z' && "v"@[0] == 'v'); }
    assert("z"@ != "w"@) by { reveal_strlit("w"); assert("z"@[0] == 'z' && "w"@[0] == 'w'); }
    assert("z"@ != "x"@) by { reveal_strlit("x"); assert("z"@[0] == 'z' && "x"@[0] == 'x'); }
    assert("z"@ != "y"@) by { reveal_strlit("y"); assert("z"@[0] == 'z' && "y"@[0] == 'y'); }
}

proof fn lemma_key_code_1()
    ensures
        spec_get_key_code("1"@) == Some(0x1Eu8),
{
    lemma_key_name_lengths();
    reveal_strlit("1");
    assert("1"@ =~= seq!['1']);
    lemma_no_separators(seq!['1']);
    assert("1"@ != "a"@) by { reveal_strlit("a"); assert("1"@[0] == '1' && "a"@[0] == 'a'); }
    assert("1"@ != "b"@) by { reveal_strlit("b"); assert("1"@[0] == '1' && "b"@[0] == 'b'); }
    assert("1"@ != "c"@) by { reveal_strlit("c"); assert("1"@[0] == '1' && "c"@[0] == 'c'); }
    assert("1"@ != "d"@) by { reveal_strlit("d"); assert("1"@[0] == '1' && "d"@[0] == 'd'); }
    assert("1"@ != "e"@) by { reveal_strlit("e"); assert("1"@[0] == '1' && "e"@[0] == 'e'); }
    assert("1"@ != "f"@) by { reveal_strlit("f"); assert("1"@[0] == '1' && "f"@[0] == 'f'); }
    assert("1"@ != "g"@) by { reveal_strlit("g"); assert("1"@[0] == '1' && "g"@[0] == 'g'); }
    assert("1"@ != "h"@) by { reveal_strlit("h"); assert("1"@[0] == '1' && "h"@[0] == 'h'); }
    assert("1"@ != "i"@) by { reveal_strlit("i"); assert("1"@[0] == '1' && "i"@[0] == 'i'); }
    assert("1"@ != "j"@) by { reveal_strlit("j"); assert("1"@[0] == '1' && "j"@[0] == 'j'); }
    assert("1"@ != "k"@) by { reveal_strlit("k"); assert("1"@[0] == '1' && "k"@[0] == 'k'); }
    assert("1"@ != "l"@) by { reveal_strlit("l"); assert("1"@[0] == '1' && "l"@[0] == 'l'); }
    assert("1"@ != "m"@) by { reveal_strlit("m"); assert("1"@[0] == '1' && "m"@[0] == 'm'); }
    assert("1"@ != "n"@) by { reveal_strlit("n"); assert("1"@[0] == '1' && "n"@[0] == 'n'); }
    assert("1"@ != "o"@) by { reveal_strlit("o"); assert("1"@[0] == '1' && "o"@[0] == 'o'); }
    assert("1"@ != "p"@) by { reveal_strlit("p"); assert("1"@[0] == '1' && "p"@[0] == 'p'); }
    assert("1"@ != "q"@) by { reveal_strlit("q"); assert("1"@[0] == '1' && "q"@[0] == 'q'); }
    assert("1"@ != "r"@) by { reveal_strlit("r"); assert("1"@[0] == '1' && "r"@[0] == 'r'); }
    assert("1"@ != "s"@) by { reveal_strlit("s"); assert("1"@[0] == '1' && "s"@[0] == 's'); }
    assert("1"@ != "t"@) by { reveal_strlit("t"); assert("1"@[0] == '1' && "t"@[0] == 't'); }
    assert("1"@ != "u"@) by { reveal_strlit("u"); assert("1"@[0] == '1' && "u"@[0] == 'u'); }
    assert("1"@ != "v"@) by { reveal_strlit("v"); assert("1"@[0] == '1' && "v"@[0] == 'v'); }
    assert("1"@ != "w"@) by { reveal_strlit("w"); assert("1"@[0] == '1' && "w"@[0] == 'w'); }
    assert("1"@ != "x"@) by { reveal_strlit("x"); assert("1"@[0] == '1' && "x"@[0] == 'x'); }
    assert("1"@ != "y"@) by { reveal_strlit("y"); assert("1"@[0] == '1' && "y"@[0] == 'y'); }
    assert("1"@ != "z"@) by { reveal_strlit("z"); assert("1"@[0] == '1' && "z"@[0] == 'z'); }
}

proof fn lemma_key_code_2()
    ensures
        spec_get_key_code("2"@) == Some(0x1Fu8),
{
    lemma_key_name_lengths();
    reveal_strlit("2");
    assert("2"@ =~= seq!['2']);
    lemma_no_separators(seq!['2']);
    assert("2"@ != "a"@) by { reveal_strlit("a"); assert("2"@[0] == '2' && "a"@[0] == 'a'); }
    assert("2"@ != "b"@) by { reveal_strlit("b"); assert("2"@[0] == '2' && "b"@[0] == 'b'); }
    assert("2"@ != "c"@) by { reveal_strlit("c"); assert("2"@[0] == '2' && "c"@[0] == 'c'); }
    assert("2"@ != "d"@) by { reveal_strlit("d"); assert("2"@[0] == '2' && "d"@[0] == 'd'); }
    assert("2"@ != "e"@) by { reveal_strlit("e"); assert("2"@[0] == '2' && "e"@[0] == 'e'); }
    assert("2"@ != "f"@) by { reveal_strlit("f"); assert("2"@[0] == '2' && "f"@[0] == 'f'); }
    assert("2"@ != "g"@) by { reveal_strlit("g"); assert("2"@[0] == '2' && "g"@[0] == 'g'); }
    assert("2"@ != "h"@) by { reveal_strlit("h"); assert("2"@[0] == '2' && "h"@[0] == 'h'); }
    assert("2"@ != "i"@) by { reveal_strlit("i"); assert("2"@[0] == '2' && "i"@[0] == 'i'); }
    assert("2"@ != "j"@) by { reveal_strlit("j"); assert("2"@[0] == '2' && "j"@[0] == 'j'); }
    assert("2"@ != "k"@) by { reveal_strlit("k"); assert("2"@[0] == '2' && "k"@[0] == 'k'); }
    assert("2"@ != "l"@) by { reveal_strlit("l"); assert("2"@[0] == '2' && "l"@[0] == 'l'); }
    assert("2"@ != "m"@) by { reveal_strlit("m"); assert("2"@[0] == '2' && "m"@[0] == 'm'); }
    assert("2"@ != "n"@) by { reveal_strlit("n"); assert("2"@[0] == '2' && "n"@[0] == 'n'); }
    assert("2"@ != "o"@) by { reveal_strlit("o"); assert("2"@[0] == '2' && "o"@[0] == 'o'); }
    assert("2"@ != "p"@) by { reveal_strlit("p"); assert("2"@[0] == '2' && "p"@[0] == 'p'); }
    assert("2"@ != "q"@) by { reveal_strlit("q"); assert("2"@[0] == '2' && "q"@[0] == 'q'); }
    assert("2"@ != "r"@) by { reveal_strlit("r"); assert("2"@[0] == '2' && "r"@[0] == 'r'); }
    assert("2"@ != "s"@) by { reveal_strlit("s"); assert("2"@[0] == '2' && "s"@[0] == 's'); }
    assert("2"@ != "t"@) by { reveal_strlit("t"); assert("2"@[0] == '2' && "t"@[0] == 't'); }
    assert("2"@ != "u"@) by { reveal_strlit("u"); assert("2"@[0] == '2' && "u"@[0] == 'u'); }
    assert("2"@ != "v"@) by { reveal_strlit("v"); assert("2"@[0] == '2' && "v"@[0] == 'v'); }
    assert("2"@ != "w"@) by { reveal_strlit("w"); assert("2"@[0] == '2' && "w"@[0] == 'w'); }
    assert("2"@ != "x"@) by { reveal_strlit("x"); assert("2"@[0] == '2' && "x"@[0] == 'x'); }
    assert("2"@ != "y"@) by { reveal_strlit("y"); assert("2"@[0] == '2' && "y"@[0] == 'y'); }
    assert("2"@ != "z"@) by { reveal_strlit("z"); assert("2"@[0] == '2' && "z"@[0] == 'z'); }
    assert("2"@ != "1"@) by { reveal_strlit("1"); assert("2"@[0] == '2' && "1"@[0] == '1'); }
}

proof fn lemma_key_code_3()
    ensures
        spec_get_key_code("3"@) == Some(0x20u8),
{
    lemma_key_name_lengths();
    reveal_strlit("3");
    assert("3"@ =~= seq!['3']);
    lemma_no_separators(seq!['3']);
    assert("3"@ != "a"@) by { reveal_strlit("a"); assert("3"@[0] == '3' && "a"@[0] == 'a'); }
    assert("3"@ != "b"@) by { reveal_strlit("b"); assert("3"@[0] == '3' && "b"@[0] == 'b'); }
    assert("3"@ != "c"@) by { reveal_strlit("c"); assert("3"@[0] == '3' && "c"@[0] == 'c'); }
    assert("3"@ != "d"@) by { reveal_strlit("d"); assert("3"@[0] == '3' && "d"@[0] == 'd'); }
    assert("3"@ != "e"@) by { reveal_strlit("e"); assert("3"@[0] == '3' && "e"@[0] == 'e'); }
    assert("3"@ != "f"@) by { reveal_strlit("f"); assert("3"@[0] == '3' && "f"@[0] == 'f'); }
    assert("3"@ != "g"@) by { reveal_strlit("g"); assert("3"@[0] == '3' && "g"@[0] == 'g'); }
    assert("3"@ != "h"@) by { reveal_strlit("h"); assert("3"@[0] == '3' && "h"@[0] == 'h'); }
    assert("3"@ != "i"@) by { reveal_strlit("i"); assert("3"@[0] == '3' && "i"@[0] == 'i'); }
    assert("3"@ != "j"@) by { reveal_strlit("j"); assert("3"@[0] == '3' && "j"@[0] == 'j'); }
    assert("3"@ != "k"@) by { reveal_strlit("k"); assert("3"@[0] == '3' && "k"@[0] == 'k'); }
    assert("3"@ != "l"@) by { reveal_strlit("l"); assert("3"@[0] == '3' && "l"@[0] == 'l'); }
    assert("3"@ != "m"@) by { reveal_strlit("m"); assert("3"@[0] == '3' && "m"@[0] == 'm'); }
    assert("3"@ != "n"@) by { reveal_strlit("n"); assert("3"@[0] == '3' && "n"@[0] == 'n'); }
    assert("3"@ != "o"@) by { reveal_strlit("o"); assert("3"@[0] == '3' && "o"@[0] == 'o'); }
    assert("3"@ != "p"@) by { reveal_strlit("p"); assert("3"@[0] == '3' && "p"@[0] == 'p'); }
    assert("3"@ != "q"@) by { reveal_strlit("q"); assert("3"@[0] == '3' && "q"@[0] == 'q'); }
    assert("3"@ != "r"@) by { reveal_strlit("r"); assert("3"@[0] == '3' && "r"@[0] == 'r'); }
    assert("3"@ != "s"@) by { reveal_strlit("s"); assert("3"@[0] == '3' && "s"@[0] == 's'); }
    assert("3"@ != "t"@) by { reveal_strlit("t"); assert("3"@[0] == '3' && "t"@[0] == 't'); }
    assert("3"@ != "u"@) by { reveal_strlit("u"); assert("3"@[0] == '3' && "u"@[0] == 'u'); }
    assert("3"@ != "v"@) by { reveal_strlit("v"); assert("3"@[0] == '3' && "v"@[0] == 'v'); }
    assert("3"@ != "w"@) by { reveal_strlit("w"); assert("3"@[0] == '3' && "w"@[0] == 'w'); }
    assert("3"@ != "x"@) by { reveal_strlit("x"); assert("3"@[0] == '3' && "x"@[0] == 'x'); }
    assert("3"@ != "y"@) by { reveal_strlit("y"); assert("3"@[0] == '3' && "y"@[0] == 'y'); }
    assert("3"@ != "z"@) by { reveal_strlit("z"); assert("3"@[0] == '3' && "z"@[0] == 'z'); }
    assert("3"@ != "1"@) by { reveal_strlit("1"); assert("3"@[0] == '3' && "1"@[0] == '1'); }
    assert("3"@ != "2"@) by { reveal_strlit("2"); assert("3"@[0] == '3' && "2"@[0] == '2'); }
}

proof fn lemma_key_code_4()
    ensures
        spec_get_key_code("4"@) == Some(0x21u8),
{
    lemma_key_name_lengths();
    reveal_strlit("4");
    assert("4"@ =~= seq!['4']);
    lemma_no_separators(seq!['4']);
    assert("4"@ != "a"@) by { reveal_strlit("a"); assert("4"@[0] == '4' && "a"@[0] == 'a'); }
    assert("4"@ != "b"@) by { reveal_strlit("b"); assert("4"@[0] == '4' && "b"@[0] == 'b'); }
    assert("4"@ != "c"@) by { reveal_strlit("c"); assert("4"@[0] == '4' && "c"@[0] == 'c'); }
    assert("4"@ != "d"@) by { reveal_strlit("d"); assert("4"@[0] == '4' && "d"@[0] == 'd'); }
    assert("4"@ != "e"@) by { reveal_strlit("e"); assert("4"@[0] == '4' && "e"@[0] == 'e'); }
    assert("4"@ != "f"@) by { reveal_strlit("f"); assert("4"@[0] == '4' && "f"@[0] == 'f'); }
    assert("4"@ != "g"@) by { reveal_strlit("g"); assert("4"@[0] == '4' && "g"@[0] == 'g'); }
    assert("4"@ != "h"@) by { reveal_strlit("h"); assert("4"@[0] == '4' && "h"@[0] == 'h'); }
    assert("4"@ != "i"@) by { reveal_strlit("i"); assert("4"@[0] == '4' && "i"@[0] == 'i'); }
    assert("4"@ != "j"@) by { reveal_strlit("j"); assert("4"@[0] == '4' && "j"@[0] == 'j'); }
    assert("4"@ != "k"@) by { reveal_strlit("k"); assert("4"@[0] == '4' && "k"@[0] == 'k'); }
    assert("4"@ != "l"@) by { reveal_strlit("l"); assert("4"@[0] == '4' && "l"@[0] == 'l'); }
    assert("4"@ != "m"@) by { reveal_strlit("m"); assert("4"@[0] == '4' && "m"@[0] == 'm'); }
    assert("4"@ != "n"@) by { reveal_strlit("n"); assert("4"@[0] == '4' && "n"@[0] == 'n'); }
    assert("4"@ != "o"@) by { reveal_strlit("o"); assert("4"@[0] == '4' && "o"@[0] == 'o'); }
    assert("4"@ != "p"@) by { reveal_strlit("p"); assert("4"@[0] == '4' && "p"@[0] == 'p'); }
    assert("4"@ != "q"@) by { reveal_strlit("q"); assert("4"@[0] == '4' && "q"@[0] == 'q'); }
    assert("4"@ != "r"@) by { reveal_strlit("r"); assert("4"@[0] == '4' && "r"@[0] == 'r'); }
    assert("4"@ != "s"@) by { reveal_strlit("s"); assert("4"@[0] == '4' && "s"@[0] == 's'); }
    assert("4"@ != "t"@) by { reveal_strlit("t"); assert("4"@[0] == '4' && "t"@[0] == 't'); }
    assert("4"@ != "u"@) by { reveal_strlit("u"); assert("4"@[0] == '4' && "u"@[0] == 'u'); }
    assert("4"@ != "v"@) by { reveal_strlit("v"); assert("4"@[0] == '4' && "v"@[0] == 'v'); }
    assert("4"@ != "w"@) by { reveal_strlit("w"); assert("4"@[0] == '4' && "w"@[0] == 'w'); }
    assert("4"@ != "x"@) by { reveal_strlit("x"); assert("4"@[0] == '4' && "x"@[0] == 'x'); }
    assert("4"@ != "y"@) by { reveal_strlit("y"); assert("4"@[0] == '4' && "y"@[0] == 'y'); }
    assert("4"@ != "z"@) by { reveal_strlit("z"); assert("4"@[0] == '4' && "z"@[0] == 'z'); }
    assert("4"@ != "1"@) by { reveal_strlit("1"); assert("4"@[0] == '4' && "1"@[0] == '1'); }
    assert("4"@ != "2"@) by { reveal_strlit("2"); assert("4"@[0] == '4' && "2"@[0] == '2'); }
    assert("4"@ != "3"@) by { reveal_strlit("3"); assert("4"@[0] == '4' && "3"@[0] == '3'); }
}

proof fn lemma_key_code_5()
    ensures
        spec_get_key_code("5"@) == Some(0x22u8),
{
    lemma_key_name_lengths();
    reveal_strlit("5");
    assert("5"@ =~= seq!['5']);
    lemma_no_separators(seq!['5']);
    assert("5"@ != "a"@) by { reveal_strlit("a"); assert("5"@[0] == '5' && "a"@[0] == 'a'); }
    assert("5"@ != "b"@) by { reveal_strlit("b"); assert("5"@[0] == '5' && "b"@[0] == 'b'); }
    assert("5"@ != "c"@) by { reveal_strlit("c"); assert("5"@[0] == '5' && "c"@[0] == 'c'); }
    assert("5"@ != "d"@) by { reveal_strlit("d"); assert("5"@[0] == '5' && "d"@[0] == 'd'); }
    assert("5"@ != "e"@) by { reveal_strlit("e"); assert("5"@[0] == '5' && "e"@[0] == 'e'); }
    assert("5"@ != "f"@) by { reveal_strlit("f"); assert("5"@[0] == '5' && "f"@[0] == 'f'); }
    assert("5"@ != "g"@) by { reveal_strlit("g"); assert("5"@[0] == '5' && "g"@[0] == 'g'); }
    assert("5"@ != "h"@) by { reveal_strlit("h"); assert("5"@[0] == '5' && "h"@[0] == 'h'); }
    assert("5"@ != "i"@) by { reveal_strlit("i"); assert("5"@[0] == '5' && "i"@[0] == 'i'); }
    assert("5"@ != "j"@) by { reveal_strlit("j"); assert("5"@[0] == '5' && "j"@[0] == 'j'); }
    assert("5"@ != "k"@) by { reveal_strlit("k"); assert("5"@[0] == '5' && "k"@[0] == 'k'); }
    assert("5"@ != "l"@) by { reveal_strlit("l"); assert("5"@[0] == '5' && "l"@[0] == 'l'); }
    assert("5"@ != "m"@) by { reveal_strlit("m"); assert("5"@[0] == '5' && "m"@[0] == 'm'); }
    assert("5"@ != "n"@) by { reveal_strlit("n"); assert("5"@[0] == '5' && "n"@[0] == 'n'); }
    assert("5"@ != "o"@) by { reveal_strlit("o"); assert("5"@[0] == '5' && "o"@[0] == 'o'); }
    assert("5"@ != "p"@) by { reveal_strlit("p"); assert("5"@[0] == '5' && "p"@[0] == 'p'); }
    assert("5"@ != "q"@) by { reveal_strlit("q"); assert("5"@[0] == '5' && "q"@[0] == 'q'); }
    assert("5"@ != "r"@) by { reveal_strlit("r"); assert("5"@[0] == '5' && "r"@[0] == 'r'); }
    assert("5"@ != "s"@) by { reveal_strlit("s"); assert("5"@[0] == '5' && "s"@[0] == 's'); }
    assert("5"@ != "t"@) by { reveal_strlit("t"); assert("5"@[0] == '5' && "t"@[0] == 't'); }
    assert("5"@ != "u"@) by { reveal_strlit("u"); assert("5"@[0] == '5' && "u"@[0] == 'u'); }
    assert("5"@ != "v"@) by { reveal_strlit("v"); assert("5"@[0] == '5' && "v"@[0] == 'v'); }
    assert("5"@ != "w"@) by { reveal_strlit("w"); assert("5"@[0] == '5' && "w"@[0] == 'w'); }
    assert("5"@ != "x"@) by { reveal_strlit("x"); assert("5"@[0] == '5' && "x"@[0] == 'x'); }
    assert("5"@ != "y"@) by { reveal_strlit("y"); assert("5"@[0] == '5' && "y"@[0] == 'y'); }
    assert("5"@ != "z"@) by { reveal_strlit("z"); assert("5"@[0] == '5' && "z"@[0] == 'z'); }
    assert("5"@ != "1"@) by { reveal_strlit("1"); assert("5"@[0] == '5' && "1"@[0] == '1'); }
    assert("5"@ != "2"@) by { reveal_strlit("2"); assert("5"@[0] == '5' && "2"@[0] == '2'); }
    assert("5"@ != "3"@) by { reveal_strlit("3"); assert("5"@[0] == '5' && "3"@[0] == '3'); }
    assert("5"@ != "4"@) by { reveal_strlit("4"); assert("5"@[0] == '5' && "4"@[0] == '4'); }
}

proof fn lemma_key_code_6()
    ensures
        spec_get_key_code("6"@) == Some(0x23u8),
{
    lemma_key_name_lengths();
    reveal_strlit("6");
    assert("6"@ =~= seq!['6']);
    lemma_no_separators(seq!['6']);
    assert("6"@ != "a"@) by { reveal_strlit("a"); assert("6"@[0] == '6' && "a"@[0] == 'a'); }
    assert("6"@ != "b"@) by { reveal_strlit("b"); assert("6"@[0] == '6' && "b"@[0] == 'b'); }
    assert("6"@ != "c"@) by { reveal_strlit("c"); assert("6"@[0] == '6' && "c"@[0] == 'c'); }
    assert("6"@ != "d"@) by { reveal_strlit("d"); assert("6"@[0] == '6' && "d"@[0] == 'd'); }
    assert("6"@ != "e"@) by { reveal_strlit("e"); assert("6"@[0] == '6' && "e"@[0] == 'e'); }
    assert("6"@ != "f"@) by { reveal_strlit("f"); assert("6"@[0] == '6' && "f"@[0] == 'f'); }
    assert("6"@ != "g"@) by { reveal_strlit("g"); assert("6"@[0] == '6' && "g"@[0] == 'g'); }
    assert("6"@ != "h"@) by { reveal_strlit("h"); assert("6"@[0] == '6' && "h"@[0] == 'h'); }
    assert("6"@ != "i"@) by { reveal_strlit("i"); assert("6"@[0] == '6' && "i"@[0] == 'i'); }
    assert("6"@ != "j"@) by { reveal_strlit("j"); assert("6"@[0] == '6' && "j"@[0] == 'j'); }
    assert("6"@ != "k"@) by { reveal_strlit("k"); assert("6"@[0] == '6' && "k"@[0] == 'k'); }
    assert("6"@ != "l"@) by { reveal_strlit("l"); assert("6"@[0] == '6' && "l"@[0] == 'l'); }
    assert("6"@ != "m"@) by { reveal_strlit("m"); assert("6"@[0] == '6' && "m"@[0] == 'm'); }
    assert("6"@ != "n"@) by { reveal_strlit("n"); assert("6"@[0] == '6' && "n"@[0] == 'n'); }
    assert("6"@ != "o"@) by { reveal_strlit("o"); assert("6"@[0] == '6' && "o"@[0] == 'o'); }
    assert("6"@ != "p"@) by { reveal_strlit("p"); assert("6"@[0] == '6' && "p"@[0] == 'p'); }
    assert("6"@ != "q"@) by { reveal_strlit("q"); assert("6"@[0] == '6' && "q"@[0] == 'q'); }
    assert("6"@ != "r"@) by { reveal_strlit("r"); assert("6"@[0] == '6' && "r"@[0] == 'r'); }
    assert("6"@ != "s"@) by { reveal_strlit("s"); assert("6"@[0] == '6' && "s"@[0] == 's'); }
    assert("6"@ != "t"@) by { reveal_strlit("t"); assert("6"@[0] == '6' && "t"@[0] == 't'); }
    assert("6"@ != "u"@) by { reveal_strlit("u"); assert("6"@[0] == '6' && "u"@[0] == 'u'); }
    assert("6"@ != "v"@) by { reveal_strlit("v"); assert("6"@[0] == '6' && "v"@[0] == 'v'); }
    assert("6"@ != "w"@) by { reveal_strlit("w"); assert("6"@[0] == '6' && "w"@[0] == 'w'); }
    assert("6"@ != "x"@) by { reveal_strlit("x"); assert("6"@[0] == '6' && "x"@[0] == 'x'); }
    assert("6"@ != "y"@) by { reveal_strlit("y"); assert("6"@[0] == '6' && "y"@[0] == 'y'); }
    assert("6"@ != "z"@) by { reveal_strlit("z"); assert("6"@[0] == '6' && "z"@[0] == 'z'); }
    assert("6"@ != "1"@) by { reveal_strlit("1"); assert("6"@[0] == '6' && "1"@[0] == '1'); }
    assert("6"@ != "2"@) by { reveal_strlit("2"); assert("6"@[0] == '6' && "2"@[0] == '2'); }
    assert("6"@ != "3"@) by { reveal_strlit("3"); assert("6"@[0] == '6' && "3"@[0] == '3'); }
    assert("6"@ != "4"@) by { reveal_strlit("4"); assert("6"@[0] == '6' && "4"@[0] == '4'); }
    assert("6"@ != "5"@) by { reveal_strlit("5"); assert("6"@[0] == '6' && "5"@[0] == '5'); }
}

proof fn lemma_key_code_7()
    ensures
        spec_get_key_code("7"@) == Some(0x24u8),
{
    lemma_key_name_lengths();
    reveal_strlit("7");
    assert("7"@ =~= seq!['7']);
    lemma_no_separators(seq!['7']);
    assert("7"@ != "a"@) by { reveal_strlit("a"); assert("7"@[0] == '7' && "a"@[0] == 'a'); }
    assert("7"@ != "b"@) by { reveal_strlit("b"); assert("7"@[0] == '7' && "b"@[0] == 'b'); }
    assert("7"@ != "c"@) by { reveal_strlit("c"); assert("7"@[0] == '7' && "c"@[0] == 'c'); }
    assert("7"@ != "d"@) by { reveal_strlit("d"); assert("7"@[0] == '7' && "d"@[0] == 'd'); }
    assert("7"@ != "e"@) by { reveal_strlit("e"); assert("7"@[0] == '7' && "e"@[0] == 'e'); }
    assert("7"@ != "f"@) by { reveal_strlit("f"); assert("7"@[0] == '7' && "f"@[0] == 'f'); }
    assert("7"@ != "g"@) by { reveal_strlit("g"); assert("7"@[0] == '7' && "g"@[0] == 'g'); }
    assert("7"@ != "h"@) by { reveal_strlit("h"); assert("7"@[0] == '7' && "h"@[0] == 'h'); }
    assert("7"@ != "i"@) by { reveal_strlit("i"); assert("7"@[0] == '7' && "i"@[0] == 'i'); }
    assert("7"@ != "j"@) by { reveal_strlit("j"); assert("7"@[0] == '7' && "j"@[0] == 'j'); }
    assert("7"@ != "k"@) by { reveal_strlit("k"); assert("7"@[0] == '7' && "k"@[0] == 'k'); }
    assert("7"@ != "l"@) by { reveal_strlit("l"); assert("7"@[0] == '7' && "l"@[0] == 'l'); }
    assert("7"@ != "m"@) by { reveal_strlit("m"); assert("7"@[0] == '7' && "m"@[0] == 'm'); }
    assert("7"@ != "n"@) by { reveal_strlit("n"); assert("7"@[0] == '7' && "n"@[0] == 'n'); }
    assert("7"@ != "o"@) by { reveal_strlit("o"); assert("7"@[0] == '7' && "o"@[0] == 'o'); }
    assert("7"@ != "p"@) by { reveal_strlit("p"); assert("7"@[0] == '7' && "p"@[0] == 'p'); }
    assert("7"@ != "q"@) by { reveal_strlit("q"); assert("7"@[0] == '7' && "q"@[0] == 'q'); }
    assert("7"@ != "r"@) by { reveal_strlit("r"); assert("7"@[0] == '7' && "r"@[0] == 'r'); }
    assert("7"@ != "s"@) by { reveal_strlit("s"); assert("7"@[0] == '7' && "s"@[0] == 's'); }
    assert("7"@ != "t"@) by { reveal_strlit("t"); assert("7"@[0] == '7' && "t"@[0] == 't'); }
    assert("7"@ != "u"@) by { reveal_strlit("u"); assert("7"@[0] == '7' && "u"@[0] == 'u'); }
    assert("7"@ != "v"@) by { reveal_strlit("v"); assert("7"@[0] == '7' && "v"@[0] == 'v'); }
    assert("7"@ != "w"@) by { reveal_strlit("w"); assert("7"@[0] == '7' && "w"@[0] == 'w'); }
    assert("7"@ != "x"@) by { reveal_strlit("x"); assert("7"@[0] == '7' && "x"@[0] == 'x'); }
    assert("7"@ != "y"@) by { reveal_strlit("y"); assert("7"@[0] == '7' && "y"@[0] == 'y'); }
    assert("7"@ != "z"@) by { reveal_strlit("z"); assert("7"@[0] == '7' && "z"@[0] == 'z'); }
    assert("7"@ != "1"@) by { reveal_strlit("1"); assert("7"@[0] == '7' && "1"@[0] == '1'); }
    assert("7"@ != "2"@) by { reveal_strlit("2"); assert("7"@[0] == '7' && "2"@[0] == '2'); }
    assert("7"@ != "3"@) by { reveal_strlit("3"); assert("7"@[0] == '7' && "3"@[0] == '3'); }
    assert("7"@ != "4"@) by { reveal_strlit("4"); assert("7"@[0] == '7' && "4"@[0] == '4'); }
    assert("7"@ != "5"@) by { reveal_strlit("5"); assert("7"@[0] == '7' && "5"@[0] == '5'); }
    assert("7"@ != "6"@) by { reveal_strlit("6"); assert("7"@[0] == '7' && "6"@[0] == '6'); }
}

proof fn lemma_key_code_8()
    ensures
        spec_get_key_code("8"@) == Some(0x25u8),
{
    lemma_key_name_lengths();
    reveal_strlit("8");
    assert("8"@ =~= seq!['8']);
    lemma_no_separators(seq!['8']);
    assert("8"@ != "a"@) by { reveal_strlit("a"); assert("8"@[0] == '8' && "a"@[0] == 'a'); }
    assert("8"@ != "b"@) by { reveal_strlit("b"); assert("8"@[0] == '8' && "b"@[0] == 'b'); }
    assert("8"@ != "c"@) by { reveal_strlit("c"); assert("8"@[0] == '8' && "c"@[0] == 'c'); }
    assert("8"@ != "d"@) by { reveal_strlit("d"); assert("8"@[0] == '8' && "d"@[0] == 'd'); }
    assert("8"@ != "e"@) by { reveal_strlit("e"); assert("8"@[0] == '8' && "e"@[0] == 'e'); }
    assert("8"@ != "f"@) by { reveal_strlit("f"); assert("8"@[0] == '8' && "f"@[0] == 'f'); }
    assert("8"@ != "g"@) by { reveal_strlit("g"); assert("8"@[0] == '8' && "g"@[0] == 'g'); }
    assert("8"@ != "h"@) by { reveal_strlit("h"); assert("8"@[0] == '8' && "h"@[0] == 'h'); }
    assert("8"@ != "i"@) by { reveal_strlit("i"); assert("8"@[0] == '8' && "i"@[0] == 'i'); }
    assert("8"@ != "j"@) by { reveal_strlit("j"); assert("8"@[0] == '8' && "j"@[0] == 'j'); }
    assert("8"@ != "k"@) by { reveal_strlit("k"); assert("8"@[0] == '8' && "k"@[0] == 'k'); }
    assert("8"@ != "l"@) by { reveal_strlit("l"); assert("8"@[0] == '8' && "l"@[0] == 'l'); }
    assert("8"@ != "m"@) by { reveal_strlit("m"); assert("8"@[0] == '8' && "m"@[0] == 'm'); }
    assert("8"@ != "n"@) by { reveal_strlit("n"); assert("8"@[0] == '8' && "n"@[0] == 'n'); }
    assert("8"@ != "o"@) by { reveal_strlit("o"); assert("8"@[0] == '8' && "o"@[0] == 'o'); }
    assert("8"@ != "p"@) by { reveal_strlit("p"); assert("8"@[0] == '8' && "p"@[0] == 'p'); }
    assert("8"@ != "q"@) by { reveal_strlit("q"); assert("8"@[0] == '8' && "q"@[0] == 'q'); }
    assert("8"@ != "r"@) by { reveal_strlit("r"); assert("8"@[0] == '8' && "r"@[0] == 'r'); }
    assert("8"@ != "s"@) by { reveal_strlit("s"); assert("8"@[0] == '8' && "s"@[0] == 's'); }
    assert("8"@ != "t"@) by { reveal_strlit("t"); assert("8"@[0] == '8' && "t"@[0] == 't'); }
    assert("8"@ != "u"@) by { reveal_strlit("u"); assert("8"@[0] == '8' && "u"@[0] == 'u'); }
    assert("8"@ != "v"@) by { reveal_strlit("v"); assert("8"@[0] == '8' && "v"@[0] == 'v'); }
    assert("8"@ != "w"@) by { reveal_strlit("w"); assert("8"@[0] == '8' && "w"@[0] == 'w'); }
    assert("8"@ != "x"@) by { reveal_strlit("x"); assert("8"@[0] == '8' && "x"@[0] == 'x'); }
    assert("8"@ != "y"@) by { reveal_strlit("y"); assert("8"@[0] == '8' && "y"@[0] == 'y'); }
    assert("8"@ != "z"@) by { reveal_strlit("z"); assert("8"@[0] == '8' && "z"@[0] == 'z'); }
    assert("8"@ != "1"@) by { reveal_strlit("1"); assert("8"@[0] == '8' && "1"@[0] == '1'); }
    assert("8"@ != "2"@) by { reveal_strlit("2"); assert("8"@[0] == '8' && "2"@[0] == '2'); }
    assert("8"@ != "3"@) by { reveal_strlit("3"); assert("8"@[0] == '8' && "3"@[0] == '3'); }
    assert("8"@ != "4"@) by { reveal_strlit("4"); assert("8"@[0] == '8' && "4"@[0] == '4'); }
    assert("8"@ != "5"@) by { reveal_strlit("5"); assert("8"@[0] == '8' && "5"@[0] == '5'); }
    assert("8"@ != "6"@) by { reveal_strlit("6"); assert("8"@[0] == '8' && "6"@[0] == '6'); }
    assert("8"@ != "7"@) by { reveal_strlit("7"); assert("8"@[0] == '8' && "7"@[0] == '7'); }
}

proof fn lemma_key_code_9()
    ensures
        spec_get_key_code("9"@) == Some(0x26u8),
{
    lemma_key_name_lengths();
    reveal_strlit("9");
    assert("9"@ =~= seq!['9']);
    lemma_no_separators(seq!['9']);
    assert("9"@ != "a"@) by { reveal_strlit("a"); assert("9"@[0] == '9' && "a"@[0] == 'a'); }
    assert("9"@ != "b"@) by { reveal_strlit("b"); assert("9"@[0] == '9' && "b"@[0] == 'b'); }
    assert("9"@ != "c"@) by { reveal_strlit("c"); assert("9"@[0] == '9' && "c"@[0] == 'c'); }
    assert("9"@ != "d"@) by { reveal_strlit("d"); assert("9"@[0] == '9' && "d"@[0] == 'd'); }
    assert("9"@ != "e"@) by { reveal_strlit("e"); assert("9"@[0] == '9' && "e"@[0] == 'e'); }
    assert("9"@ != "f"@) by { reveal_strlit("f"); assert("9"@[0] == '9' && "f"@[0] == 'f'); }
    assert("9"@ != "g"@) by { reveal_strlit("g"); assert("9"@[0] == '9' && "g"@[0] == 'g'); }
    assert("9"@ != "h"@) by { reveal_strlit("h"); assert("9"@[0] == '9' && "h"@[0] == 'h'); }
    assert("9"@ != "i"@) by { reveal_strlit("i"); assert("9"@[0] == '9' && "i"@[0] == 'i'); }
    assert("9"@ != "j"@) by { reveal_strlit("j"); assert("9"@[0] == '9' && "j"@[0] == 'j'); }
    assert("9"@ != "k"@) by { reveal_strlit("k"); assert("9"@[0] == '9' && "k"@[0] == 'k'); }
    assert("9"@ != "l"@) by { reveal_strlit("l"); assert("9"@[0] == '9' && "l"@[0] == 'l'); }
    assert("9"@ != "m"@) by { reveal_strlit("m"); assert("9"@[0] == '9' && "m"@[0] == 'm'); }
    assert("9"@ != "n"@) by { reveal_strlit("n"); assert("9"@[0] == '9' && "n"@[0] == 'n'); }
    assert("9"@ != "o"@) by { reveal_strlit("o"); assert("9"@[0] == '9' && "o"@[0] == 'o'); }
    assert("9"@ != "p"@) by { reveal_strlit("p"); assert("9"@[0] == '9' && "p"@[0] == 'p'); }
    assert("9"@ != "q"@) by { reveal_strlit("q"); assert("9"@[0] == '9' && "q"@[0] == 'q'); }
    assert("9"@ != "r"@) by { reveal_strlit("r"); assert("9"@[0] == '9' && "r"@[0] == 'r'); }
    assert("9"@ != "s"@) by { reveal_strlit("s"); assert("9"@[0] == '9' && "s"@[0] == 's'); }
    assert("9"@ != "t"@) by { reveal_strlit("t"); assert("9"@[0] == '9' && "t"@[0] == 't'); }
    assert("9"@ != "u"@) by { reveal_strlit("u"); assert("9"@[0] == '9' && "u"@[0] == 'u'); }
    assert("9"@ != "v"@) by { reveal_strlit("v"); assert("9"@[0] == '9' && "v"@[0] == 'v'); }
    assert("9"@ != "w"@) by { reveal_strlit("w"); assert("9"@[0] == '9' && "w"@[0] == 'w'); }
    assert("9"@ != "x"@) by { reveal_strlit("x"); assert("9"@[0] == '9' && "x"@[0] == 'x'); }
    assert("9"@ != "y"@) by { reveal_strlit("y"); assert("9"@[0] == '9' && "y"@[0] == 'y'); }
    assert("9"@ != "z"@) by { reveal_strlit("z"); assert("9"@[0] == '9' && "z"@[0] == 'z'); }
    assert("9"@ != "1"@) by { reveal_strlit("1"); assert("9"@[0] == '9' && "1"@[0] == '1'); }
    assert("9"@ != "2"@) by { reveal_strlit("2"); assert("9"@[0] == '9' && "2"@[0] == '2'); }
    assert("9"@ != "3"@) by { reveal_strlit("3"); assert("9"@[0] == '9' && "3"@[0] == '3'); }
    assert("9"@ != "4"@) by { reveal_strlit("4"); assert("9"@[0] == '9' && "4"@[0] == '4'); }
    assert("9"@ != "5"@) by { reveal_strlit("5"); assert("9"@[0] == '9' && "5"@[0] == '5'); }
    assert("9"@ != "6"@) by { reveal_strlit("6"); assert("9"@[0] == '9' && "6"@[0] == '6'); }
    assert("9"@ != "7"@) by { reveal_strlit("7"); assert("9"@[0] == '9' && "7"@[0] == '7'); }
    assert("9"@ != "8"@) by { reveal_strlit("8"); assert("9"@[0] == '9' && "8"@[0] == '8'); }
}

proof fn lemma_key_code_0()
    ensures
        spec_get_key_code("0"@) == Some(0x27u8),
{
    lemma_key_name_lengths();
    reveal_strlit("0");
    assert("0"@ =~= seq!['0']);
    lemma_no_separators(seq!['0']);
    assert("0"@ != "a"@) by { reveal_strlit("a"); assert("0"@[0] == '0' && "a"@[0] == 'a'); }
    assert("0"@ != "b"@) by { reveal_strlit("b"); assert("0"@[0] == '0' && "b"@[0] == 'b'); }
    assert("0"@ != "c"@) by { reveal_strlit("c"); assert("0"@[0] == '0' && "c"@[0] == 'c'); }
    assert("0"@ != "d"@) by { reveal_strlit("d"); assert("0"@[0] == '0' && "d"@[0] == 'd'); }
    assert("0"@ != "e"@) by { reveal_strlit("e"); assert("0"@[0] == '0' && "e"@[0] == 'e'); }
    assert("0"@ != "f"@) by { reveal_strlit("f"); assert("0"@[0] == '0' && "f"@[0] == 'f'); }
    assert("0"@ != "g"@) by { reveal_strlit("g"); assert("0"@[0] == '0' && "g"@[0] == 'g'); }
    assert("0"@ != "h"@) by { reveal_strlit("h"); assert("0"@[0] == '0' && "h"@[0] == 'h'); }
    assert("0"@ != "i"@) by { reveal_strlit("i"); assert("0"@[0] == '0' && "i"@[0] == 'i'); }
    assert("0"@ != "j"@) by { reveal_strlit("j"); assert("0"@[0] == '0' && "j"@[0] == 'j'); }
    assert("0"@ != "k"@) by { reveal_strlit("k"); assert("0"@[0] == '0' && "k"@[0] == 'k'); }
    assert("0"@ != "l"@) by { reveal_strlit("l"); assert("0"@[0] == '0' && "l"@[0] == 'l'); }
    assert("0"@ != "m"@) by { reveal_strlit("m"); assert("0"@[0] == '0' && "m"@[0] == 'm'); }
    assert("0"@ != "n"@) by { reveal_strlit("n"); assert("0"@[0] == '0' && "n"@[0] == 'n'); }
    assert("0"@ != "o"@) by { reveal_strlit("o"); assert("0"@[0] == '0' && "o"@[0] == 'o'); }
    assert("0"@ != "p"@) by { reveal_strlit("p"); assert("0"@[0] == '0' && "p"@[0] == 'p'); }
    assert("0"@ != "q"@) by { reveal_strlit("q"); assert("0"@[0] == '0' && "q"@[0] == 'q'); }
    assert("0"@ != "r"@) by { reveal_strlit("r"); assert("0"@[0] == '0' && "r"@[0] == 'r'); }
    assert("0"@ != "s"@) by { reveal_strlit("s"); assert("0"@[0] == '0' && "s"@[0] == 's'); }
    assert("0"@ != "t"@) by { reveal_strlit("t"); assert("0"@[0] == '0' && "t"@[0] == 't'); }
    assert("0"@ != "u"@) by { reveal_strlit("u"); assert("0"@[0] == '0' && "u"@[0] == 'u'); }
    assert("0"@ != "v"@) by { reveal_strlit("v"); assert("0"@[0] == '0' && "v"@[0] == 'v'); }
    assert("0"@ != "w"@) by { reveal_strlit("w"); assert("0"@[0] == '0' && "w"@[0] == 'w'); }
    assert("0"@ != "x"@) by { reveal_strlit("x"); assert("0"@[0] == '0' && "x"@[0] == 'x'); }
    assert("0"@ != "y"@) by { reveal_strlit("y"); assert("0"@[0] == '0' && "y"@[0] == 'y'); }
    assert("0"@ != "z"@) by { reveal_strlit("z"); assert("0"@[0] == '0' && "z"@[0] == 'z'); }
    assert("0"@ != "1"@) by { reveal_strlit("1"); assert("0"@[0] == '0' && "1"@[0] == '1'); }
    assert("0"@ != "2"@) by { reveal_strlit("2"); assert("0"@[0] == '0' && "2"@[0] == '2'); }
    assert("0"@ != "3"@) by { reveal_strlit("3"); assert("0"@[0] == '0' && "3"@[0] == '3'); }
    assert("0"@ != "4"@) by { reveal_strlit("4"); assert("0"@[0] == '0' && "4"@[0] == '4'); }
    assert("0"@ != "5"@) by { reveal_strlit("5"); assert("0"@[0] == '0' && "5"@[0] == '5'); }
    assert("0"@ != "6"@) by { reveal_strlit("6"); assert("0"@[0] == '0' && "6"@[0] == '6'); }
    assert("0"@ != "7"@) by { reveal_strlit("7"); assert("0"@[0] == '0' && "7"@[0] == '7'); }
    assert("0"@ != "8"@) by { reveal_strlit("8"); assert("0"@[0] == '0' && "8"@[0] == '8'); }
    assert("0"@ != "9"@) by { reveal_strlit("9"); assert("0"@[0] == '0' && "9"@[0] == '9'); }
}

proof fn lemma_key_code_enter()
    ensures
        spec_get_key_code("enter"@) == Some(0x28u8),
{
    lemma_key_name_lengths();
    reveal_strlit("enter");
    assert("enter"@ =~= seq!['e', 'n', 't', 'e', 'r']);
    lemma_no_separators(seq!['e', 'n', 't', 'e', 'r']);
}

proof fn lemma_key_code_escape()
    ensures
        spec_get_key_code("escape"@) == Some(0x29u8),
{
    lemma_key_name_lengths();
    reveal_strlit("escape");
    assert("escape"@ =~= seq!['e', 's', 'c', 'a', 'p', 'e']);
    lemma_no_separators(seq!['e', 's', 'c', 'a', 'p', 'e']);
}

proof fn lemma_key_code_backspace()
    ensures
        spec_get_key_code("backspace"@) == Some(0x2Au8),
{
    lemma_key_name_lengths();
    reveal_strlit("backspace");
    assert("backspace"@ =~= seq!['b', 'a', 'c', 'k', 's', 'p', 'a', 'c', 'e']);
    lemma_no_separators(seq!['b', 'a', 'c', 'k', 's', 'p', 'a', 'c', 'e']);
}

proof fn lemma_key_code_tab()
    ensures
        spec_get_key_code("tab"@) == Some(0x2Bu8),
{
    lemma_key_name_lengths();
    reveal_strlit("tab");
    assert("tab"@ =~= seq!['t', 'a', 'b']);
    lemma_no_separators(seq!['t', 'a', 'b']);
}

proof fn lemma_key_code_space()
    ensures
        spec_get_key_code("space"@) == Some(0x2Cu8),
{
    lemma_key_name_lengths();
    reveal_strlit("space");
    assert("space"@ =~= seq!['s', 'p', 'a', 'c', 'e']);
    lemma_no_separators(seq!['s', 'p', 'a', 'c', 'e']);
    assert("space"@ != "enter"@) by { reveal_strlit("enter"); assert("space"@[0] == 's' && "enter"@[0] == 'e'); }
}

proof fn lemma_key_code_minus()
    ensures
        spec_get_key_code("minus"@) == Some(0x2Du8),
{
    lemma_key_name_lengths();
    reveal_strlit("minus");
    assert("minus"@ =~= seq!['m', 'i', 'n', 'u', 's']);
    lemma_no_separators(seq!['m', 'i', 'n', 'u', 's']);
    assert("minus"@ != "enter"@) by { reveal_strlit("enter"); assert("minus"@[0] == 'm' && "enter"@[0] == 'e'); }
    assert("minus"@ != "space"@) by { reveal_strlit("space"); assert("minus"@[0] == 'm' && "space"@[0] == 's'); }
}

proof fn lemma_key_code_equal()
    ensures
        spec_get_key_code("equal"@) == Some(0x2Eu8),
{
    lemma_key_name_lengths();
    reveal_strlit("equal");
    assert("equal"@ =~= seq!['e', 'q', 'u', 'a', 'l']);
    lemma_no_separators(seq!['e', 'q', 'u', 'a', 'l']);
    assert("equal"@ != "enter"@) by { reveal_strlit("enter"); assert("equal"@[1] == 'q' && "enter"@[1] == 'n'); }
    assert("equal"@ != "space"@) by { reveal_strlit("space"); assert("equal"@[0] == 'e' && "space"@[0] == 's'); }
    assert("equal"@ != "minus"@) by { reveal_strlit("minus"); assert("equal"@[0] == 'e' && "minus"@[0] == 'm'); }
}

proof fn lemma_key_code_leftbrace()
    ensures
        spec_get_key_code("leftbrace"@) == Some(0x2Fu8),
{
    lemma_key_name_lengths();
    reveal_strlit("leftbrace");
    assert("leftbrace"@ =~= seq!['l', 'e', 'f', 't', 'b', 'r', 'a', 'c', 'e']);
    lemma_no_separators(seq!['l', 'e', 'f', 't', 'b', 'r', 'a', 'c', 'e']);
    assert("leftbrace"@ != "backspace"@) by { reveal_strlit("backspace"); assert("leftbrace"@[0] == 'l' && "backspace"@[0] == 'b'); }
}

proof fn lemma_key_code_rightbrace()
    ensures
        spec_get_key_code("rightbrace"@) == Some(0x30u8),
{
    lemma_key_name_lengths();
    reveal_strlit("rightbrace");
    assert("rightbrace"@ =~= seq!['r', 'i', 'g', 'h', 't', 'b', 'r', 'a', 'c', 'e']);
    lemma_no_separators(seq!['r', 'i', 'g', 'h', 't', 'b', 'r', 'a', 'c', 'e']);
}

proof fn lemma_key_code_backslash()
    ensures
        spec_get_key_code("backslash"@) == Some(0x31u8),
{
    lemma_key_name_lengths();
    reveal_strlit("backslash");
    assert("backslash"@ =~= seq!['b', 'a', 'c', 'k', 's', 'l', 'a', 's', 'h']);
    lemma_no_separators(seq!['b', 'a', 'c', 'k', 's', 'l', 'a', 's', 'h']);
    assert("backslash"@ != "backspace"@) by { reveal_strlit("backspace"); assert("backslash"@[5] == 'l' && "backspace"@[5] == 'p'); }
    assert("backslash"@ != "leftbrace"@) by { reveal_strlit("leftbrace"); assert("backslash"@[0] == 'b' && "leftbrace"@[0] == 'l'); }
}

proof fn lemma_key_code_semicolon()
    ensures
        spec_get_key_code("semicolon"@) == Some(0x33u8),
{
    lemma_key_name_lengths();
    reveal_strlit("semicolon");
    assert("semicolon"@ =~= seq!['s', 'e', 'm', 'i', 'c', 'o', 'l', 'o', 'n']);
    lemma_no_separators(seq!['s', 'e', 'm', 'i', 'c', 'o', 'l', 'o', 'n']);
    assert("semicolon"@ != "backspace"@) by { reveal_strlit("backspace"); assert("semicolon"@[0] == 's' && "backspace"@[0] == 'b'); }
    assert("semicolon"@ != "leftbrace"@) by { reveal_strlit("leftbrace"); assert("semicolon"@[0] == 's' && "leftbrace"@[0] == 'l'); }
    assert("semicolon"@ != "backslash"@) by { reveal_strlit("backslash"); assert("semicolon"@[0] == 's' && "backslash"@[0] == 'b'); }
}

proof fn lemma_key_code_apostrophe()
    ensures
        spec_get_key_code("apostrophe"@) == Some(0x34u8),
{
    lemma_key_name_lengths();
    reveal_strlit("apostrophe");
    assert("apostrophe"@ =~= seq!['a', 'p', 'o', 's', 't', 'r', 'o', 'p', 'h', 'e']);
    lemma_no_separators(seq!['a', 'p', 'o', 's', 't', 'r', 'o', 'p', 'h', 'e']);
    assert("apostrophe"@ != "rightbrace"@) by { reveal_strlit("rightbrace"); assert("apostrophe"@[0] == 'a' && "rightbrace"@[0] == 'r'); }
}

proof fn lemma_key_code_grave()
    ensures
        spec_get_key_code("grave"@) == Some(0x35u8),
{
    lemma_key_name_lengths();
    reveal_strlit("grave");
    assert("grave"@ =~= seq!['g', 'r', 'a', 'v', 'e']);
    lemma_no_separators(seq!['g', 'r', 'a', 'v', 'e']);
    assert("grave"@ != "enter"@) by { reveal_strlit("enter"); assert("grave"@[0] == 'g' && "enter"@[0] == 'e'); }
    assert("grave"@ != "space"@) by { reveal_strlit("space"); assert("grave"@[0] == 'g' && "space"@[0] == 's'); }
    assert("grave"@ != "minus"@) by { reveal_strlit("minus"); assert("grave"@[0] == 'g' && "minus"@[0] == 'm'); }
    assert("grave"@ != "equal"@) by { reveal_strlit("equal"); assert("grave"@[0] == 'g' && "equal"@[0] == 'e'); }
}

proof fn lemma_key_code_comma()
    ensures
        spec_get_key_code("comma"@) == Some(0x36u8),
{
    lemma_key_name_lengths();
    reveal_strlit("comma");
    assert("comma"@ =~= seq!['c', 'o', 'm', 'm', 'a']);
    lemma_no_separators(seq!['c', 'o', 'm', 'm', 'a']);
    assert("comma"@ != "enter"@) by { reveal_strlit("enter"); assert("comma"@[0] == 'c' && "enter"@[0] == 'e'); }
    assert("comma"@ != "space"@) by { reveal_strlit("space"); assert("comma"@[0] == 'c' && "space"@[0] == 's'); }
    assert("comma"@ != "minus"@) by { reveal_strlit("minus"); assert("comma"@[0] == 'c' && "minus"@[0] == 'm'); }
    assert("comma"@ != "equal"@) by { reveal_strlit("equal"); assert("comma"@[0] == 'c' && "equal"@[0] == 'e'); }
    assert("comma"@ != "grave"@) by { reveal_strlit("grave"); assert("comma"@[0] == 'c' && "grave"@[0] == 'g'); }
}

proof fn lemma_key_code_period()
    ensures
        spec_get_key_code("period"@) == Some(0x37u8),
{
    lemma_key_name_lengths();
    reveal_strlit("period");
    assert("period"@ =~= seq!['p', 'e', 'r', 'i', 'o', 'd']);
    lemma_no_separators(seq!['p', 'e', 'r', 'i', 'o', 'd']);
    assert("period"@ != "escape"@) by { reveal_strlit("escape"); assert("period"@[0] == 'p' && "escape"@[0] == 'e'); }
}

proof fn lemma_key_code_slash()
    ensures
        spec_get_key_code("slash"@) == Some(0x38u8),
{
    lemma_key_name_lengths();
    reveal_strlit("slash");
    assert("slash"@ =~= seq!['s', 'l', 'a', 's', 'h']);
    lemma_no_separators(seq!['s', 'l', 'a', 's', 'h']);
    assert("slash"@ != "enter"@) by { reveal_strlit("enter"); assert("slash"@[0] == 's' && "enter"@[0] == 'e'); }
    assert("slash"@ != "space"@) by { reveal_strlit("space"); assert("slash"@[1] == 'l' && "space"@[1] == 'p'); }
    assert("slash"@ != "minus"@) by { reveal_strlit("minus"); assert("slash"@[0] == 's' && "minus"@[0] == 'm'); }
    assert("slash"@ != "equal"@) by { reveal_strlit("equal"); assert("slash"@[0] == 's' && "equal"@[0] == 'e'); }
    assert("slash"@ != "grave"@) by { reveal_strlit("grave"); assert("slash"@[0] == 's' && "grave"@[0] == 'g'); }
    assert("slash"@ != "comma"@) by { reveal_strlit("comma"); assert("slash"@[0] == 's' && "comma"@[0] == 'c'); }
}

proof fn lemma_key_code_capslock()
    ensures
        spec_get_key_code("capslock"@) == Some(0x39u8),
{
    lemma_key_name_lengths();
    reveal_strlit("capslock");
    assert("capslock"@ =~= seq!['c', 'a', 'p', 's', 'l', 'o', 'c', 'k']);
    lemma_no_separators(seq!['c', 'a', 'p', 's', 'l', 'o', 'c', 'k']);
}

proof fn lemma_key_code_f1()
    ensures
        spec_get_key_code("f1"@) == Some(0x3Au8),
{
    lemma_key_name_lengths();
    reveal_strlit("f1");
    assert("f1"@ =~= seq!['f', '1']);
    lemma_no_separators(seq!['f', '1']);
}

proof fn lemma_key_code_f2()
    ensures
        spec_get_key_code("f2"@) == Some(0x3Bu8),
{
    lemma_key_name_lengths();
    reveal_strlit("f2");
    assert("f2"@ =~= seq!['f', '2']);
    lemma_no_separators(seq!['f', '2']);
    assert("f2"@ != "f1"@) by { reveal_strlit("f1"); assert("f2"@[1] == '2' && "f1"@[1] == '1'); }
}

proof fn lemma_key_code_f3()
    ensures
        spec_get_key_code("f3"@) == Some(0x3Cu8),
{
    lemma_key_name_lengths();
    reveal_strlit("f3");
    assert("f3"@ =~= seq!['f', '3']);
    lemma_no_separators(seq!['f', '3']);
    assert("f3"@ != "f1"@) by { reveal_strlit("f1"); assert("f3"@[1] == '3' && "f1"@[1] == '1'); }
    assert("f3"@ != "f2"@) by { reveal_strlit("f2"); assert("f3"@[1] == '3' && "f2"@[1] == '2'); }
}

proof fn lemma_key_code_f4()
    ensures
        spec_get_key_code("f4"@) == Some(0x3Du8),
{
    lemma_key_name_lengths();
    reveal_strlit("f4");
    assert("f4"@ =~= seq!['f', '4']);
    lemma_no_separators(seq!['f', '4']);
    assert("f4"@ != "f1"@) by { reveal_strlit("f1"); assert("f4"@[1] == '4' && "f1"@[1] == '1'); }
    assert("f4"@ != "f2"@) by { reveal_strlit("f2"); assert("f4"@[1] == '4' && "f2"@[1] == '2'); }
    assert("f4"@ != "f3"@) by { reveal_strlit("f3"); assert("f4"@[1] == '4' && "f3"@[1] == '3'); }
}

proof fn lemma_key_code_f5()
    ensures
        spec_get_key_code("f5"@) == Some(0x3Eu8),
{
    lemma_key_name_lengths();
    reveal_strlit("f5");
    assert("f5"@ =~= seq!['f', '5']);
    lemma_no_separators(seq!['f', '5']);
    assert("f5"@ != "f1"@) by { reveal_strlit("f1"); assert("f5"@[1] == '5' && "f1"@[1] == '1'); }
    assert("f5"@ != "f2"@) by { reveal_strlit("f2"); assert("f5"@[1] == '5' && "f2"@[1] == '2'); }
    assert("f5"@ != "f3"@) by { reveal_strlit("f3"); assert("f5"@[1] == '5' && "f3"@[1] == '3'); }
    assert("f5"@ != "f4"@) by { reveal_strlit("f4"); assert("f5"@[1] == '5' && "f4"@[1] == '4'); }
}

proof fn lemma_key_code_f6()
    ensures
        spec_get_key_code("f6"@) == Some(0x3Fu8),
{
    lemma_key_name_lengths();
    reveal_strlit("f6");
    assert("f6"@ =~= seq!['f', '6']);
    lemma_no_separators(seq!['f', '6']);
    assert("f6"@ != "f1"@) by { reveal_strlit("f1"); assert("f6"@[1] == '6' && "f1"@[1] == '1'); }
    assert("f6"@ != "f2"@) by { reveal_strlit("f2"); assert("f6"@[1] == '6' && "f2"@[1] == '2'); }
    assert("f6"@ != "f3"@) by { reveal_strlit("f3"); assert("f6"@[1] == '6' && "f3"@[1] == '3'); }
    assert("f6"@ != "f4"@) by { reveal_strlit("f4"); assert("f6"@[1] == '6' && "f4"@[1] == '4'); }
    assert("f6"@ != "f5"@) by { reveal_strlit("f5"); assert("f6"@[1] == '6' && "f5"@[1] == '5'); }
}

proof fn lemma_key_code_f7()
    ensures
        spec_get_key_code("f7"@) == Some(0x40u8),
{
    lemma_key_name_lengths();
    reveal_strlit("f7");
    assert("f7"@ =~= seq!['f', '7']);
    lemma_no_separators(seq!['f', '7']);
    assert("f7"@ != "f1"@) by { reveal_strlit("f1"); assert("f7"@[1] == '7' && "f1"@[1] == '1'); }
    assert("f7"@ != "f2"@) by { reveal_strlit("f2"); assert("f7"@[1] == '7' && "f2"@[1] == '2'); }
    assert("f7"@ != "f3"@) by { reveal_strlit("f3"); assert("f7"@[1] == '7' && "f3"@[1] == '3'); }
    assert("f7"@ != "f4"@) by { reveal_strlit("f4"); assert("f7"@[1] == '7' && "f4"@[1] == '4'); }
    assert("f7"@ != "f5"@) by { reveal_strlit("f5"); assert("f7"@[1] == '7' && "f5"@[1] == '5'); }
    assert("f7"@ != "f6"@) by { reveal_strlit("f6"); assert("f7"@[1] == '7' && "f6"@[1] == '6'); }
}

proof fn lemma_key_code_f8()
    ensures
        spec_get_key_code("f8"@) == Some(0x41u8),
{
    lemma_key_name_lengths();
    reveal_strlit("f8");
    assert("f8"@ =~= seq!['f', '8']);
    lemma_no_separators(seq!['f', '8']);
    assert("f8"@ != "f1"@) by { reveal_strlit("f1"); assert("f8"@[1] == '8' && "f1"@[1] == '1'); }
    assert("f8"@ != "f2"@) by { reveal_strlit("f2"); assert("f8"@[1] == '8' && "f2"@[1] == '2'); }
    assert("f8"@ != "f3"@) by { reveal_strlit("f3"); assert("f8"@[1] == '8' && "f3"@[1] == '3'); }
    assert("f8"@ != "f4"@) by { reveal_strlit("f4"); assert("f8"@[1] == '8' && "f4"@[1] == '4'); }
    assert("f8"@ != "f5"@) by { reveal_strlit("f5"); assert("f8"@[1] == '8' && "f5"@[1] == '5'); }
    assert("f8"@ != "f6"@) by { reveal_strlit("f6"); assert("f8"@[1] == '8' && "f6"@[1] == '6'); }
    assert("f8"@ != "f7"@) by { reveal_strlit("f7"); assert("f8"@[1] == '8' && "f7"@[1] == '7'); }
}

proof fn lemma_key_code_f9()
    ensures
        spec_get_key_code("f9"@) == Some(0x42u8),
{
    lemma_key_name_lengths();
    reveal_strlit("f9");
    assert("f9"@ =~= seq!['f', '9']);
    lemma_no_separators(seq!['f', '9']);
    assert("f9"@ != "f1"@) by { reveal_strlit("f1"); assert("f9"@[1] == '9' && "f1"@[1] == '1'); }
    assert("f9"@ != "f2"@) by { reveal_strlit("f2"); assert("f9"@[1] == '9' && "f2"@[1] == '2'); }
    assert("f9"@ != "f3"@) by { reveal_strlit("f3"); assert("f9"@[1] == '9' && "f3"@[1] == '3'); }
    assert("f9"@ != "f4"@) by { reveal_strlit("f4"); assert("f9"@[1] == '9' && "f4"@[1] == '4'); }
    assert("f9"@ != "f5"@) by { reveal_strlit("f5"); assert("f9"@[1] == '9' && "f5"@[1] == '5'); }
    assert("f9"@ != "f6"@) by { reveal_strlit("f6"); assert("f9"@[1] == '9' && "f6"@[1] == '6'); }
    assert("f9"@ != "f7"@) by { reveal_strlit("f7"); assert("f9"@[1] == '9' && "f7"@[1] == '7'); }
    assert("f9"@ != "f8"@) by { reveal_strlit("f8"); assert("f9"@[1] == '9' && "f8"@[1] == '8'); }
}

proof fn lemma_key_code_f10()
    ensures
        spec_get_key_code("f10"@) == Some(0x43u8),
{
    lemma_key_name_lengths();
    reveal_strlit("f10");
    assert("f10"@ =~= seq!['f', '1', '0']);
    lemma_no_separators(seq!['f', '1', '0']);
    assert("f10"@ != "tab"@) by { reveal_strlit("tab"); assert("f10"@[0] == 'f' && "tab"@[0] == 't'); }
}

proof fn lemma_key_code_f11()
    ensures
        spec_get_key_code("f11"@) == Some(0x44u8),
{
    lemma_key_name_lengths();
    reveal_strlit("f11");
    assert("f11"@ =~= seq!['f', '1', '1']);
    lemma_no_separators(seq!['f', '1', '1']);
    assert("f11"@ != "tab"@) by { reveal_strlit("tab"); assert("f11"@[0] == 'f' && "tab"@[0] == 't'); }
    assert("f11"@ != "f10"@) by { reveal_strlit("f10"); assert("f11"@[2] == '1' && "f10"@[2] == '0'); }
}

proof fn lemma_key_code_f12()
    ensures
        spec_get_key_code("f12"@) == Some(0x45u8),
{
    lemma_key_name_lengths();
    reveal_strlit("f12");
    assert("f12"@ =~= seq!['f', '1', '2']);
    lemma_no_separators(seq!['f', '1', '2']);
    assert("f12"@ != "tab"@) by { reveal_strlit("tab"); assert("f12"@[0] == 'f' && "tab"@[0] == 't'); }
    assert("f12"@ != "f10"@) by { reveal_strlit("f10"); assert("f12"@[2] == '2' && "f10"@[2] == '0'); }
    assert("f12"@ != "f11"@) by { reveal_strlit("f11"); assert("f12"@[2] == '2' && "f11"@[2] == '1'); }
}

proof fn lemma_key_code_printscreen()
    ensures
        spec_get_key_code("printscreen"@) == Some(0x46u8),
{
    lemma_key_name_lengths();
    reveal_strlit("printscreen");
    assert("printscreen"@ =~= seq!['p', 'r', 'i', 'n', 't', 's', 'c', 'r', 'e', 'e', 'n']);
    lemma_no_separators(seq!['p', 'r', 'i', 'n', 't', 's', 'c', 'r', 'e', 'e', 'n']);
}

proof fn lemma_key_code_scrolllock()
    ensures
        spec_get_key_code("scrolllock"@) == Some(0x47u8),
{
    lemma_key_name_lengths();
    reveal_strlit("scrolllock");
    assert("scrolllock"@ =~= seq!['s', 'c', 'r', 'o', 'l', 'l', 'l', 'o', 'c', 'k']);
    lemma_no_separators(seq!['s', 'c', 'r', 'o', 'l', 'l', 'l', 'o', 'c', 'k']);
    assert("scrolllock"@ != "rightbrace"@) by { reveal_strlit("rightbrace"); assert("scrolllock"@[0] == 's' && "rightbrace"@[0] == 'r'); }
    assert("scrolllock"@ != "apostrophe"@) by { reveal_strlit("apostrophe"); assert("scrolllock"@[0] == 's' && "apostrophe"@[0] == 'a'); }
}

proof fn lemma_key_code_pause()
    ensures
        spec_get_key_code("pause"@) == Some(0x48u8),
{
    lemma_key_name_lengths();
    reveal_strlit("pause");
    assert("pause"@ =~= seq!['p', 'a', 'u', 's', 'e']);
    lemma_no_separators(seq!['p', 'a', 'u', 's', 'e']);
    assert("pause"@ != "enter"@) by { reveal_strlit("enter"); assert("pause"@[0] == 'p' && "enter"@[0] == 'e'); }
    assert("pause"@ != "space"@) by { reveal_strlit("space"); assert("pause"@[0] == 'p' && "space"@[0] == 's'); }
    assert("pause"@ != "minus"@) by { reveal_strlit("minus"); assert("pause"@[0] == 'p' && "minus"@[0] == 'm'); }
    assert("pause"@ != "equal"@) by { reveal_strlit("equal"); assert("pause"@[0] == 'p' && "equal"@[0] == 'e'); }
    assert("pause"@ != "grave"@) by { reveal_strlit("grave"); assert("pause"@[0] == 'p' && "grave"@[0] == 'g'); }
    assert("pause"@ != "comma"@) by { reveal_strlit("comma"); assert("pause"@[0] == 'p' && "comma"@[0] == 'c'); }
    assert("pause"@ != "slash"@) by { reveal_strlit("slash"); assert("pause"@[0] == 'p' && "slash"@[0] == 's'); }
}

proof fn lemma_key_code_insert()
    ensures
        spec_get_key_code("insert"@) == Some(0x49u8),
{
    lemma_key_name_lengths();
    reveal_strlit("insert");
    assert("insert"@ =~= seq!['i', 'n', 's', 'e', 'r', 't']);
    lemma_no_separators(seq!['i', 'n', 's', 'e', 'r', 't']);
    assert("insert"@ != "escape"@) by { reveal_strlit("escape"); assert("insert"@[0] == 'i' && "escape"@[0] == 'e'); }
    assert("insert"@ != "period"@) by { reveal_strlit("period"); assert("insert"@[0] == 'i' && "period"@[0] == 'p'); }
}

proof fn lemma_key_code_home()
    ensures
        spec_get_key_code("home"@) == Some(0x4Au8),
{
    lemma_key_name_lengths();
    reveal_strlit("home");
    assert("home"@ =~= seq!['h', 'o', 'm', 'e']);
    lemma_no_separators(seq!['h', 'o', 'm', 'e']);
}

proof fn lemma_key_code_pageup()
    ensures
        spec_get_key_code("pageup"@) == Some(0x4Bu8),
{
    lemma_key_name_lengths();
    reveal_strlit("pageup");
    assert("pageup"@ =~= seq!['p', 'a', 'g', 'e', 'u', 'p']);
    lemma_no_separators(seq!['p', 'a', 'g', 'e', 'u', 'p']);
    assert("pageup"@ != "escape"@) by { reveal_strlit("escape"); assert("pageup"@[0] == 'p' && "escape"@[0] == 'e'); }
    assert("pageup"@ != "period"@) by { reveal_strlit("period"); assert("pageup"@[1] == 'a' && "period"@[1] == 'e'); }
    assert("pageup"@ != "insert"@) by { reveal_strlit("insert"); assert("pageup"@[0] == 'p' && "insert"@[0] == 'i'); }
}

proof fn lemma_key_code_delete()
    ensures
        spec_get_key_code("delete"@) == Some(0x4Cu8),
{
    lemma_key_name_lengths();
    reveal_strlit("delete");
    assert("delete"@ =~= seq!['d', 'e', 'l', 'e', 't', 'e']);
    lemma_no_separators(seq!['d', 'e', 'l', 'e', 't', 'e']);
    assert("delete"@ != "escape"@) by { reveal_strlit("escape"); assert("delete"@[0] == 'd' && "escape"@[0] == 'e'); }
    assert("delete"@ != "period"@) by { reveal_strlit("period"); assert("delete"@[0] == 'd' && "period"@[0] == 'p'); }
    assert("delete"@ != "insert"@) by { reveal_strlit("insert"); assert("delete"@[0] == 'd' && "insert"@[0] == 'i'); }
    assert("delete"@ != "pageup"@) by { reveal_strlit("pageup"); assert("delete"@[0] == 'd' && "pageup"@[0] == 'p'); }
}

proof fn lemma_key_code_end()
    ensures
        spec_get_key_code("end"@) == Some(0x4Du8),
{
    lemma_key_name_lengths();
    reveal_strlit("end");
    assert("end"@ =~= seq!['e', 'n', 'd']);
    lemma_no_separators(seq!['e', 'n', 'd']);
    assert("end"@ != "tab"@) by { reveal_strlit("tab"); assert("end"@[0] == 'e' && "tab"@[0] == 't'); }
    assert("end"@ != "f10"@) by { reveal_strlit("f10"); assert("end"@[0] == 'e' && "f10"@[0] == 'f'); }
    assert("end"@ != "f11"@) by { reveal_strlit("f11"); assert("end"@[0] == 'e' && "f11"@[0] == 'f'); }
    assert("end"@ != "f12"@) by { reveal_strlit("f12"); assert("end"@[0] == 'e' && "f12"@[0] == 'f'); }
}

proof fn lemma_key_code_pagedown()
    ensures
        spec_get_key_code("pagedown"@) == Some(0x4Eu8),
{
    lemma_key_name_lengths();
    reveal_strlit("pagedown");
    assert("pagedown"@ =~= seq!['p', 'a', 'g', 'e', 'd', 'o', 'w', 'n']);
    lemma_no_separators(seq!['p', 'a', 'g', 'e', 'd', 'o', 'w', 'n']);
    assert("pagedown"@ != "capslock"@) by { reveal_strlit("capslock"); assert("pagedown"@[0] == 'p' && "capslock"@[0] == 'c'); }
}

proof fn lemma_key_code_right()
    ensures
        spec_get_key_code("right"@) == Some(0x4Fu8),
{
    lemma_key_name_lengths();
    reveal_strlit("right");
    assert("right"@ =~= seq!['r', 'i', 'g', 'h', 't']);
    lemma_no_separators(seq!['r', 'i', 'g', 'h', 't']);
    assert("right"@ != "enter"@) by { reveal_strlit("enter"); assert("right"@[0] == 'r' && "enter"@[0] == 'e'); }
    assert("right"@ != "space"@) by { reveal_strlit("space"); assert("right"@[0] == 'r' && "space"@[0] == 's'); }
    assert("right"@ != "minus"@) by { reveal_strlit("minus"); assert("right"@[0] == 'r' && "minus"@[0] == 'm'); }
    assert("right"@ != "equal"@) by { reveal_strlit("equal"); assert("right"@[0] == 'r' && "equal"@[0] == 'e'); }
    assert("right"@ != "grave"@) by { reveal_strlit("grave"); assert("right"@[0] == 'r' && "grave"@[0] == 'g'); }
    assert("right"@ != "comma"@) by { reveal_strlit("comma"); assert("right"@[0] == 'r' && "comma"@[0] == 'c'); }
    assert("right"@ != "slash"@) by { reveal_strlit("slash"); assert("right"@[0] == 'r' && "slash"@[0] == 's'); }
    assert("right"@ != "pause"@) by { reveal_strlit("pause"); assert("right"@[0] == 'r' && "pause"@[0] == 'p'); }
}

proof fn lemma_key_code_left()
    ensures
        spec_get_key_code("left"@) == Some(0x50u8),
{
    lemma_key_name_lengths();
    reveal_strlit("left");
    assert("left"@ =~= seq!['l', 'e', 'f', 't']);
    lemma_no_separators(seq!['l', 'e', 'f', 't']);
    assert("left"@ != "home"@) by { reveal_strlit("home"); assert("left"@[0] == 'l' && "home"@[0] == 'h'); }
}

proof fn lemma_key_code_down()
    ensures
        spec_get_key_code("down"@) == Some(0x51u8),
{
    lemma_key_name_lengths();
    reveal_strlit("down");
    assert("down"@ =~= seq!['d', 'o', 'w', 'n']);
    lemma_no_separators(seq!['d', 'o', 'w', 'n']);
    assert("down"@ != "home"@) by { reveal_strlit("home"); assert("down"@[0] == 'd' && "home"@[0] == 'h'); }
    assert("down"@ != "left"@) by { reveal_strlit("left"); assert("down"@[0] == 'd' && "left"@[0] == 'l'); }
}

proof fn lemma_key_code_up()
    ensures
        spec_get_key_code("up"@) == Some(0x52u8),
{
    lemma_key_name_lengths();
    reveal_strlit("up");
    assert("up"@ =~= seq!['u', 'p']);
    lemma_no_separators(seq!['u', 'p']);
    assert("up"@ != "f1"@) by { reveal_strlit("f1"); assert("up"@[0] == 'u' && "f1"@[0] == 'f'); }
    assert("up"@ != "f2"@) by { reveal_strlit("f2"); assert("up"@[0] == 'u' && "f2"@[0] == 'f'); }
    assert("up"@ != "f3"@) by { reveal_strlit("f3"); assert("up"@[0] == 'u' && "f3"@[0] == 'f'); }
    assert("up"@ != "f4"@) by { reveal_strlit("f4"); assert("up"@[0] == 'u' && "f4"@[0] == 'f'); }
    assert("up"@ != "f5"@) by { reveal_strlit("f5"); assert("up"@[0] == 'u' && "f5"@[0] == 'f'); }
    assert("up"@ != "f6"@) by { reveal_strlit("f6"); assert("up"@[0] == 'u' && "f6"@[0] == 'f'); }
    assert("up"@ != "f7"@) by { reveal_strlit("f7"); assert("up"@[0] == 'u' && "f7"@[0] == 'f'); }
    assert("up"@ != "f8"@) by { reveal_strlit("f8"); assert("up"@[0] == 'u' && "f8"@[0] == 'f'); }
    assert("up"@ != "f9"@) by { reveal_strlit("f9"); assert("up"@[0] == 'u' && "f9"@[0] == 'f'); }
}

proof fn lemma_key_code_numlock()
    ensures
        spec_get_key_code("numlock"@) == Some(0x53u8),
{
    lemma_key_name_lengths();
    reveal_strlit("numlock");
    assert("numlock"@ =~= seq!['n', 'u', 'm', 'l', 'o', 'c', 'k']);
    lemma_no_separators(seq!['n', 'u', 'm', 'l', 'o', 'c', 'k']);
}

proof fn lemma_key_code_mute()
    ensures
        spec_get_key_code("mute"@) == Some(0x7Fu8),
{
    lemma_key_name_lengths();
    reveal_strlit("mute");
    assert("mute"@ =~= seq!['m', 'u', 't', 'e']);
    lemma_no_separators(seq!['m', 'u', 't', 'e']);
    assert("mute"@ != "home"@) by { reveal_strlit("home"); assert("mute"@[0] == 'm' && "home"@[0] == 'h'); }
    assert("mute"@ != "left"@) by { reveal_strlit("left"); assert("mute"@[0] == 'm' && "left"@[0] == 'l'); }
    assert("mute"@ != "down"@) by { reveal_strlit("down"); assert("mute"@[0] == 'm' && "down"@[0] == 'd'); }
}

proof fn lemma_key_code_volumeup()
    ensures
        spec_get_key_code("volumeup"@) == Some(0x80u8),
{
    lemma_key_name_lengths();
    reveal_strlit("volumeup");
    assert("volumeup"@ =~= seq!['v', 'o', 'l', 'u', 'm', 'e', 'u', 'p']);
    lemma_no_separators(seq!['v', 'o', 'l', 'u', 'm', 'e', 'u', 'p']);
    assert("volumeup"@ != "capslock"@) by { reveal_strlit("capslock"); assert("volumeup"@[0] == 'v' && "capslock"@[0] == 'c'); }
    assert("volumeup"@ != "pagedown"@) by { reveal_strlit("pagedown"); assert("volumeup"@[0] == 'v' && "pagedown"@[0] == 'p'); }
}

proof fn lemma_key_code_volumedown()
    ensures
        spec_get_key_code("volumedown"@) == Some(0x81u8),
{
    lemma_key_name_lengths();
    reveal_strlit("volumedown");
    assert("volumedown"@ =~= seq!['v', 'o', 'l', 'u', 'm', 'e', 'd', 'o', 'w', 'n']);
    lemma_no_separators(seq!['v', 'o', 'l', 'u', 'm', 'e', 'd', 'o', 'w', 'n']);
    assert("volumedown"@ != "rightbrace"@) by { reveal_strlit("rightbrace"); assert("volumedown"@[0] == 'v' && "rightbrace"@[0] == 'r'); }
    assert("volumedown"@ != "apostrophe"@) by { reveal_strlit("apostrophe"); assert("volumedown"@[0] == 'v' && "apostrophe"@[0] == 'a'); }
    assert("volumedown"@ != "scrolllock"@) by { reveal_strlit("scrolllock"); assert("volumedown"@[0] == 'v' && "scrolllock"@[0] == 's'); }
}

/// The mouse button names, entry by entry: left is 0x01, right 0x02, middle
/// 0x04, back 0x08 and forward 0x10.
pub proof fn law_mouse_codes()
    ensures
        spec_get_mouse_button("mouseleft"@) == Some(0x01u8),
        spec_get_mouse_button("leftclick"@) == Some(0x01u8),
        spec_get_mouse_button("mouseright"@) == Some(0x02u8),
        spec_get_mouse_button("rightclick"@) == Some(0x02u8),
        spec_get_mouse_button("mousemiddle"@) == Some(0x04u8),
        spec_get_mouse_button("middleclick"@) == Some(0x04u8),
        spec_get_mouse_button("mouseback"@) == Some(0x08u8),
        spec_get_mouse_button("mouseforward"@) == Some(0x10u8),
{
    lemma_mouse_code_mouseleft();
    lemma_mouse_code_leftclick();
    lemma_mouse_code_mouseright();
    lemma_mouse_code_rightclick();
    lemma_mouse_code_mousemiddle();
    lemma_mouse_code_middleclick();
    lemma_mouse_code_mouseback();
    lemma_mouse_code_mouseforward();
}

proof fn lemma_mouse_code_mouseleft()
    ensures
        spec_get_mouse_button("mouseleft"@) == Some(0x01u8),
{
    reveal_strlit("mouseleft");
    assert("mouseleft"@ =~= seq!['m', 'o', 'u', 's', 'e', 'l', 'e', 'f', 't']);
    lemma_no_separators(seq!['m', 'o', 'u', 's', 'e', 'l', 'e', 'f', 't']);
}

proof fn lemma_mouse_code_leftclick()
    ensures
        spec_get_mouse_button("leftclick"@) == Some(0x01u8),
{
    reveal_strlit("leftclick");
    assert("leftclick"@ =~= seq!['l', 'e', 'f', 't', 'c', 'l', 'i', 'c', 'k']);
    lemma_no_separators(seq!['l', 'e', 'f', 't', 'c', 'l', 'i', 'c', 'k']);
    assert("leftclick"@ != "mouseleft"@) by { reveal_strlit("mouseleft"); assert("leftclick"@[0] == 'l' && "mouseleft"@[0] == 'm'); }
}

proof fn lemma_mouse_code_mouseright()
    ensures
        spec_get_mouse_button("mouseright"@) == Some(0x02u8),
{
    reveal_strlit("mouseright");
    assert("mouseright"@ =~= seq!['m', 'o', 'u', 's', 'e', 'r', 'i', 'g', 'h', 't']);
    lemma_no_separators(seq!['m', 'o', 'u', 's', 'e', 'r', 'i', 'g', 'h', 't']);
    assert("mouseright"@ != "mouseleft"@) by { reveal_strlit("mouseleft"); assert("mouseleft"@.len() == 9); }
    assert("mouseright"@ != "leftclick"@) by { reveal_strlit("leftclick"); assert("leftclick"@.len() == 9); }
}

proof fn lemma_mouse_code_rightclick()
    ensures
        spec_get_mouse_button("rightclick"@) == Some(0x02u8),
{
    reveal_strlit("rightclick");
    assert("rightclick"@ =~= seq!['r', 'i', 'g', 'h', 't', 'c', 'l', 'i', 'c', 'k']);
    lemma_no_separators(seq!['r', 'i', 'g', 'h', 't', 'c', 'l', 'i', 'c', 'k']);
    assert("rightclick"@ != "mouseleft"@) by { reveal_strlit("mouseleft"); assert("mouseleft"@.len() == 9); }
    assert("rightclick"@ != "leftclick"@) by { reveal_strlit("leftclick"); assert("leftclick"@.len() == 9); }
    assert("rightclick"@ != "mouseright"@) by { reveal_strlit("mouseright"); assert("rightclick"@[0] == 'r' && "mouseright"@[0] == 'm'); }
}

proof fn lemma_mouse_code_mousemiddle()
    ensures
        spec_get_mouse_button("mousemiddle"@) == Some(0x04u8),
{
    reveal_strlit("mousemiddle");
    assert("mousemiddle"@ =~= seq!['m', 'o', 'u', 's', 'e', 'm', 'i', 'd', 'd', 'l', 'e']);
    lemma_no_separators(seq!['m', 'o', 'u', 's', 'e', 'm', 'i', 'd', 'd', 'l', 'e']);
    assert("mousemiddle"@ != "mouseleft"@) by { reveal_strlit("mouseleft"); assert("mouseleft"@.len() == 9); }
    assert("mousemiddle"@ != "leftclick"@) by { reveal_strlit("leftclick"); assert("leftclick"@.len() == 9); }
    assert("mousemiddle"@ != "mouseright"@) by { reveal_strlit("mouseright"); assert("mouseright"@.len() == 10); }
    assert("mousemiddle"@ != "rightclick"@) by { reveal_strlit("rightclick"); assert("rightclick"@.len() == 10); }
}

proof fn lemma_mouse_code_middleclick()
    ensures
        spec_get_mouse_button("middleclick"@) == Some(0x04u8),
{
    reveal_strlit("middleclick");
    assert("middleclick"@ =~= seq!['m', 'i', 'd', 'd', 'l', 'e', 'c', 'l', 'i', 'c', 'k']);
    lemma_no_separators(seq!['m', 'i', 'd', 'd', 'l', 'e', 'c', 'l', 'i', 'c', 'k']);
    assert("middleclick"@ != "mouseleft"@) by { reveal_strlit("mouseleft"); assert("mouseleft"@.len() == 9); }
    assert("middleclick"@ != "leftclick"@) by { reveal_strlit("leftclick"); assert("leftclick"@.len() == 9); }
    assert("middleclick"@ != "mouseright"@) by { reveal_strlit("mouseright"); assert("mouseright"@.len() == 10); }
    assert("middleclick"@ != "rightclick"@) by { reveal_strlit("rightclick"); assert("rightclick"@.len() == 10); }
    assert("middleclick"@ != "mousemiddle"@) by { reveal_strlit("mousemiddle"); assert("middleclick"@[1] == 'i' && "mousemiddle"@[1] == 'o'); }
}

proof fn lemma_mouse_code_mouseback()
    ensures
        spec_get_mouse_button("mouseback"@) == Some(0x08u8),
{
    reveal_strlit("mouseback");
    assert("mouseback"@ =~= seq!['m', 'o', 'u', 's', 'e', 'b', 'a', 'c', 'k']);
    lemma_no_separators(seq!['m', 'o', 'u', 's', 'e', 'b', 'a', 'c', 'k']);
    assert("mouseback"@ != "mouseleft"@) by { reveal_strlit("mouseleft"); assert("mouseback"@[5] == 'b' && "mouseleft"@[5] == 'l'); }
    assert("mouseback"@ != "leftclick"@) by { reveal_strlit("leftclick"); assert("mouseback"@[0] == 'm' && "leftclick"@[0] == 'l'); }
    assert("mouseback"@ != "mouseright"@) by { reveal_strlit("mouseright"); assert("mouseright"@.len() == 10); }
    assert("mouseback"@ != "rightclick"@) by { reveal_strlit("rightclick"); assert("rightclick"@.len() == 10); }
    assert("mouseback"@ != "mousemiddle"@) by { reveal_strlit("mousemiddle"); assert("mousemiddle"@.len() == 11); }
    assert("mouseback"@ != "middleclick"@) by { reveal_strlit("middleclick"); assert("middleclick"@.len() == 11); }
}

proof fn lemma_mouse_code_mouseforward()
    ensures
        spec_get_mouse_button("mouseforward"@) == Some(0x10u8),
{
    reveal_strlit("mouseforward");
    assert("mouseforward"@ =~= seq!['m', 'o', 'u', 's', 'e', 'f', 'o', 'r', 'w', 'a', 'r', 'd']);
    lemma_no_separators(seq!['m', 'o', 'u', 's', 'e', 'f', 'o', 'r', 'w', 'a', 'r', 'd']);
    assert("mouseforward"@ != "mouseleft"@) by { reveal_strlit("mouseleft"); assert("mouseleft"@.len() == 9); }
    assert("mouseforward"@ != "leftclick"@) by { reveal_strlit("leftclick"); assert("leftclick"@.len() == 9); }
    assert("mouseforward"@ != "mouseright"@) by { reveal_strlit("mouseright"); assert("mouseright"@.len() == 10); }
    assert("mouseforward"@ != "rightclick"@) by { reveal_strlit("rightclick"); assert("rightclick"@.len() == 10); }
    assert("mouseforward"@ != "mousemiddle"@) by { reveal_strlit("mousemiddle"); assert("mousemiddle"@.len() == 11); }
    assert("mouseforward"@ != "middleclick"@) by { reveal_strlit("middleclick"); assert("middleclick"@.len() == 11); }
    assert("mouseforward"@ != "mouseback"@) by { reveal_strlit("mouseback"); assert("mouseback"@.len() == 9); }
}

/// How a trimmed, lower-cased name becomes an action: blank or "none" is no
/// action; otherwise a mouse button name gives that button, any other key
/// name gives that key, and only a name that is neither gives no action.
pub proof fn law_action_of_normalized(n: Seq<char>)
    ensures
        (n.len() == 0 || n == "none"@) ==> spec_action_of_normalized(n) == Action::NoAction,
        !(n.len() == 0 || n == "none"@) ==> (spec_get_mouse_button(n) matches Some(b)
            ==> spec_action_of_normalized(n) == Action::Mouse(b)),
        !(n.len() == 0 || n == "none"@) && spec_get_mouse_button(n) is None ==> (
        spec_get_key_code(n) matches Some(c) ==> spec_action_of_normalized(n) == Action::Keyboard(c)),
        !(n.len() == 0 || n == "none"@) && spec_get_mouse_button(n) is None && spec_get_key_code(n) is None
            ==> spec_action_of_normalized(n) == Action::NoAction,
        spec_action_of_normalized(n) == Action::NoAction ==> (n.len() == 0 || n == "none"@ || (
        spec_get_mouse_button(n) is None && spec_get_key_code(n) is None)),
        spec_parse_action(n) == spec_action_of_normalized(spec_to_lowercase(spec_trim(n))),
{
}


/// Separator removal, character by character: the result holds no space or
/// underscore, a name without them is left as it is, and removal works piece
/// by piece (a space or underscore contributes nothing, any other character
/// itself).
pub proof fn law_strip_separators(s: Seq<char>, c: char)
    ensures
        forall|i: int|
            0 <= i < strip_separators(s).len() ==> #[trigger] strip_separators(s)[i] != ' '
                && strip_separators(s)[i] != '_',
        (forall|i: int| 0 <= i < s.len() ==> #[trigger] s[i] != ' ' && s[i] != '_')
            ==> strip_separators(s) == s,
        strip_separators(s.push(c)) == if c == ' ' || c == '_' {
            strip_separators(s)
        } else {
            strip_separators(s).push(c)
        },
{
    lemma_strip_separators_idempotent(s);
    if forall|i: int| 0 <= i < s.len() ==> #[trigger] s[i] != ' ' && s[i] != '_' {
        lemma_no_separators(s);
    }
    assert(s.push(c).drop_last() =~= s);
}

} // verus!
