//! The trigger-shortcut grammar and the hot-swappable binding: `+`-delimited
//! case-insensitive tokens, zero or more modifiers and one key, parsed
//! against a fixed token table; and the two-step unregister/register
//! transaction that replaces the active binding.

use vstd::prelude::*;
use vstd::string::StringSliceAdditionalSpecFns;
use vstd::string::StrSliceExecFns;

verus! {

/// The default trigger shortcut.
pub const DEFAULT_SHORTCUT: &'static str = "Ctrl+Shift+V";

/// The modifier set of a shortcut.
#[derive(Debug, Clone, Copy, PartialEq, Eq, Structural)]
pub struct Modifiers {
    /// Control is held.
    pub control: bool,
    /// Shift is held.
    pub shift: bool,
    /// Alt is held.
    pub alt: bool,
    /// Meta (super, command) is held.
    pub meta: bool,
}

/// The empty modifier set.
pub open spec fn no_modifiers() -> Modifiers {
    Modifiers { control: false, shift: false, alt: false, meta: false }
}

/// A key a shortcut can name: letters, digits, function keys and the named
/// keys of the grammar.
#[derive(Debug, Clone, Copy, PartialEq, Eq, Structural)]
#[allow(missing_docs)]
pub enum Key {
    A,
    B,
    C,
    D,
    E,
    F,
    G,
    H,
    I,
    J,
    K,
    L,
    M,
    N,
    O,
    P,
    Q,
    R,
    S,
    T,
    U,
    V,
    W,
    X,
    Y,
    Z,
    Digit0,
    Digit1,
    Digit2,
    Digit3,
    Digit4,
    Digit5,
    Digit6,
    Digit7,
    Digit8,
    Digit9,
    F1,
    F2,
    F3,
    F4,
    F5,
    F6,
    F7,
    F8,
    F9,
    F10,
    F11,
    F12,
    Space,
    Enter,
    Tab,
    Escape,
    Backspace,
    Delete,
    Insert,
    Home,
    End,
    PageUp,
    PageDown,
    Up,
    Down,
    Left,
    Right,
}

/// A parsed trigger: a modifier set and one key.
#[derive(Debug, Clone, Copy, PartialEq, Eq, Structural)]
pub struct Shortcut {
    /// The modifiers the trigger requires.
    pub modifiers: Modifiers,
    /// The key the trigger fires on.
    pub key: Key,
}

/// Why a shortcut operation failed.
#[derive(Debug, Clone, Copy, PartialEq, Eq, Structural)]
pub enum ShortcutError {
    /// The specification has an unknown token or no key token.
    InvalidShortcut,
    /// The host refused to register the binding.
    RegistrationFailed,
}

/// What one normalized token of the grammar means.
#[derive(Debug, Clone, Copy, PartialEq, Eq, Structural)]
pub enum TokenKind {
    /// The Control modifier.
    Ctrl,
    /// The Shift modifier.
    Shift,
    /// The Alt modifier.
    Alt,
    /// The Meta modifier.
    Meta,
    /// A key token.
    KeyToken(Key),
    /// No token of the grammar.
    Unknown,
}

/// Whether a byte is whitespace that token trimming removes.
pub open spec fn is_space(c: u8) -> bool {
    c == 32 || (9 <= c <= 13)
}

/// A byte with an ASCII lowercase letter folded to uppercase.
pub open spec fn upper_byte(c: u8) -> u8 {
    if 97 <= c <= 122 {
        (c - 32) as u8
    } else {
        c
    }
}

/// The token with leading whitespace removed.
pub open spec fn trim_start(t: Seq<u8>) -> Seq<u8>
    decreases t.len(),
{
    if t.len() > 0 && is_space(t[0]) {
        trim_start(t.drop_first())
    } else {
        t
    }
}

/// The token with trailing whitespace removed.
pub open spec fn trim_end(t: Seq<u8>) -> Seq<u8>
    decreases t.len(),
{
    if t.len() > 0 && is_space(t.last()) {
        trim_end(t.drop_last())
    } else {
        t
    }
}

/// The token with surrounding whitespace removed.
pub open spec fn spec_trim(t: Seq<u8>) -> Seq<u8> {
    trim_end(trim_start(t))
}

/// The token folded to ASCII uppercase.
pub open spec fn spec_upper(t: Seq<u8>) -> Seq<u8> {
    t.map_values(|c: u8| upper_byte(c))
}

/// The meaning of a normalized single-character token: a letter or digit
/// key, anything else unknown.
pub open spec fn single_char_kind(c: u8) -> TokenKind {
    if c == 65 {
        TokenKind::KeyToken(Key::A)
    } else if c == 66 {
        TokenKind::KeyToken(Key::B)
    } else if c == 67 {
        TokenKind::KeyToken(Key::C)
    } else if c == 68 {
        TokenKind::KeyToken(Key::D)
    } else if c == 69 {
        TokenKind::KeyToken(Key::E)
    } else if c == 70 {
        TokenKind::KeyToken(Key::F)
    } else if c == 71 {
        TokenKind::KeyToken(Key::G)
    } else if c == 72 {
        TokenKind::KeyToken(Key::H)
    } else if c == 73 {
        TokenKind::KeyToken(Key::I)
    } else if c == 74 {
        TokenKind::KeyToken(Key::J)
    } else if c == 75 {
        TokenKind::KeyToken(Key::K)
    } else if c == 76 {
        TokenKind::KeyToken(Key::L)
    } else if c == 77 {
        TokenKind::KeyToken(Key::M)
    } else if c == 78 {
        TokenKind::KeyToken(Key::N)
    } else if c == 79 {
        TokenKind::KeyToken(Key::O)
    } else if c == 80 {
        TokenKind::KeyToken(Key::P)
    } else if c == 81 {
        TokenKind::KeyToken(Key::Q)
    } else if c == 82 {
        TokenKind::KeyToken(Key::R)
    } else if c == 83 {
        TokenKind::KeyToken(Key::S)
    } else if c == 84 {
        TokenKind::KeyToken(Key::T)
    } else if c == 85 {
        TokenKind::KeyToken(Key::U)
    } else if c == 86 {
        TokenKind::KeyToken(Key::V)
    } else if c == 87 {
        TokenKind::KeyToken(Key::W)
    } else if c == 88 {
        TokenKind::KeyToken(Key::X)
    } else if c == 89 {
        TokenKind::KeyToken(Key::Y)
    } else if c == 90 {
        TokenKind::KeyToken(Key::Z)
    } else if c == 48 {
        TokenKind::KeyToken(Key::Digit0)
    } else if c == 49 {
        TokenKind::KeyToken(Key::Digit1)
    } else if c == 50 {
        TokenKind::KeyToken(Key::Digit2)
    } else if c == 51 {
        TokenKind::KeyToken(Key::Digit3)
    } else if c == 52 {
        TokenKind::KeyToken(Key::Digit4)
    } else if c == 53 {
        TokenKind::KeyToken(Key::Digit5)
    } else if c == 54 {
        TokenKind::KeyToken(Key::Digit6)
    } else if c == 55 {
        TokenKind::KeyToken(Key::Digit7)
    } else if c == 56 {
        TokenKind::KeyToken(Key::Digit8)
    } else if c == 57 {
        TokenKind::KeyToken(Key::Digit9)
    } else {
        TokenKind::Unknown
    }
}

/// The token table of the grammar, on a trimmed, uppercased token: the
/// modifier names, the letters and digits, the function keys, and the named
/// keys with their aliases; every other token is unknown.
#[verifier::opaque]
pub open spec fn spec_token_kind(t: Seq<u8>) -> TokenKind {
    if t.len() == 1 {
        single_char_kind(t[0])
    } else if t == "CTRL".spec_bytes() || t == "CONTROL".spec_bytes() {
        TokenKind::Ctrl
    } else if t == "SHIFT".spec_bytes() {
        TokenKind::Shift
    } else if t == "ALT".spec_bytes() {
        TokenKind::Alt
    } else if t == "META".spec_bytes() || t == "SUPER".spec_bytes() || t == "CMD".spec_bytes() || t
        == "COMMAND".spec_bytes() {
        TokenKind::Meta
    } else if t == "F1".spec_bytes() {
        TokenKind::KeyToken(Key::F1)
    } else if t == "F2".spec_bytes() {
        TokenKind::KeyToken(Key::F2)
    } else if t == "F3".spec_bytes() {
        TokenKind::KeyToken(Key::F3)
    } else if t == "F4".spec_bytes() {
        TokenKind::KeyToken(Key::F4)
    } else if t == "F5".spec_bytes() {
        TokenKind::KeyToken(Key::F5)
    } else if t == "F6".spec_bytes() {
        TokenKind::KeyToken(Key::F6)
    } else if t == "F7".spec_bytes() {
        TokenKind::KeyToken(Key::F7)
    } else if t == "F8".spec_bytes() {
        TokenKind::KeyToken(Key::F8)
    } else if t == "F9".spec_bytes() {
        TokenKind::KeyToken(Key::F9)
    } else if t == "F10".spec_bytes() {
        TokenKind::KeyToken(Key::F10)
    } else if t == "F11".spec_bytes() {
        TokenKind::KeyToken(Key::F11)
    } else if t == "F12".spec_bytes() {
        TokenKind::KeyToken(Key::F12)
    } else if t == "SPACE".spec_bytes() {
        TokenKind::KeyToken(Key::Space)
    } else if t == "ENTER".spec_bytes() || t == "RETURN".spec_bytes() {
        TokenKind::KeyToken(Key::Enter)
    } else if t == "TAB".spec_bytes() {
        TokenKind::KeyToken(Key::Tab)
    } else if t == "ESCAPE".spec_bytes() || t == "ESC".spec_bytes() {
        TokenKind::KeyToken(Key::Escape)
    } else if t == "BACKSPACE".spec_bytes() {
        TokenKind::KeyToken(Key::Backspace)
    } else if t == "DELETE".spec_bytes() || t == "DEL".spec_bytes() {
        TokenKind::KeyToken(Key::Delete)
    } else if t == "INSERT".spec_bytes() || t == "INS".spec_bytes() {
        TokenKind::KeyToken(Key::Insert)
    } else if t == "HOME".spec_bytes() {
        TokenKind::KeyToken(Key::Home)
    } else if t == "END".spec_bytes() {
        TokenKind::KeyToken(Key::End)
    } else if t == "PAGEUP".spec_bytes() {
        TokenKind::KeyToken(Key::PageUp)
    } else if t == "PAGEDOWN".spec_bytes() {
        TokenKind::KeyToken(Key::PageDown)
    } else if t == "UP".spec_bytes() || t == "ARROWUP".spec_bytes() {
        TokenKind::KeyToken(Key::Up)
    } else if t == "DOWN".spec_bytes() || t == "ARROWDOWN".spec_bytes() {
        TokenKind::KeyToken(Key::Down)
    } else if t == "LEFT".spec_bytes() || t == "ARROWLEFT".spec_bytes() {
        TokenKind::KeyToken(Key::Left)
    } else if t == "RIGHT".spec_bytes() || t == "ARROWRIGHT".spec_bytes() {
        TokenKind::KeyToken(Key::Right)
    } else {
        TokenKind::Unknown
    }
}

/// The parts of `b` split on `+`: one more part than there are separators,
/// in order, the separators themselves dropped.
pub open spec fn spec_split(b: Seq<u8>) -> Seq<Seq<u8>>
    decreases b.len(),
{
    if b.len() == 0 {
        seq![Seq::<u8>::empty()]
    } else {
        let parts = spec_split(b.drop_last());
        if b.last() == 43 {
            parts.push(Seq::empty())
        } else {
            parts.update(parts.len() - 1, parts.last().push(b.last()))
        }
    }
}

/// What parsing decides from token `i` on, with the modifiers and key seen
/// so far: an unknown token fails, a modifier token joins the set, a key
/// token replaces the key, and at the end exactly the runs that saw a key
/// token succeed.
pub open spec fn spec_parse_from(
    tokens: Seq<Seq<u8>>,
    i: int,
    mods: Modifiers,
    key: Option<Key>,
) -> Result<Shortcut, ShortcutError>
    decreases tokens.len() - i,
{
    if i < 0 || i >= tokens.len() {
        match key {
            Some(k) => Ok(Shortcut { modifiers: mods, key: k }),
            None => Err(ShortcutError::InvalidShortcut),
        }
    } else {
        match spec_token_kind(spec_upper(spec_trim(tokens[i]))) {
            TokenKind::Ctrl => spec_parse_from(
                tokens,
                i + 1,
                Modifiers { control: true, ..mods },
                key,
            ),
            TokenKind::Shift => spec_parse_from(
                tokens,
                i + 1,
                Modifiers { shift: true, ..mods },
                key,
            ),
            TokenKind::Alt => spec_parse_from(tokens, i + 1, Modifiers { alt: true, ..mods }, key),
            TokenKind::Meta => spec_parse_from(
                tokens,
                i + 1,
                Modifiers { meta: true, ..mods },
                key,
            ),
            TokenKind::KeyToken(k) => spec_parse_from(tokens, i + 1, mods, Some(k)),
            TokenKind::Unknown => Err(ShortcutError::InvalidShortcut),
        }
    }
}

/// What parsing a shortcut specification yields: the bytes split on `+`,
/// each token trimmed, uppercased and looked up, the modifiers collected
/// and the last key token taken.
pub open spec fn spec_parse_shortcut(b: Seq<u8>) -> Result<Shortcut, ShortcutError> {
    spec_parse_from(spec_split(b), 0, no_modifiers(), None)
}

/// Whether the token bytes equal the pattern's bytes.
fn bytes_eq(t: &Vec<u8>, pat: &str) -> (r: bool)
    ensures
        r == (t@ == pat.spec_bytes()),
{
    let pb = pat.as_bytes();
    if t.len() != pb.len() {
        return false;
    }
    let mut i: usize = 0;
    while i < t.len()
        invariant
            t@.len() == pb@.len(),
            pb@ == pat.spec_bytes(),
            i <= t@.len(),
            forall|j: int| 0 <= j < i ==> t@[j] == pb@[j],
        decreases t@.len() - i,
    {
        if t[i] != pb[i] {
            return false;
        }
        i = i + 1;
    }
    proof {
        assert(t@ =~= pat.spec_bytes());
    }
    true
}

/// Looks up a normalized token in the grammar's table.
fn token_kind(t: &Vec<u8>) -> (r: TokenKind)
    ensures
        r == spec_token_kind(t@),
{
    proof {
        reveal(spec_token_kind);
    }
    if t.len() == 1 {
        let c = t[0];
        if 65 <= c && c <= 90 {
            return match c {
                65 => TokenKind::KeyToken(Key::A),
                66 => TokenKind::KeyToken(Key::B),
                67 => TokenKind::KeyToken(Key::C),
                68 => TokenKind::KeyToken(Key::D),
                69 => TokenKind::KeyToken(Key::E),
                70 => TokenKind::KeyToken(Key::F),
                71 => TokenKind::KeyToken(Key::G),
                72 => TokenKind::KeyToken(Key::H),
                73 => TokenKind::KeyToken(Key::I),
                74 => TokenKind::KeyToken(Key::J),
                75 => TokenKind::KeyToken(Key::K),
                76 => TokenKind::KeyToken(Key::L),
                77 => TokenKind::KeyToken(Key::M),
                78 => TokenKind::KeyToken(Key::N),
                79 => TokenKind::KeyToken(Key::O),
                80 => TokenKind::KeyToken(Key::P),
                81 => TokenKind::KeyToken(Key::Q),
                82 => TokenKind::KeyToken(Key::R),
                83 => TokenKind::KeyToken(Key::S),
                84 => TokenKind::KeyToken(Key::T),
                85 => TokenKind::KeyToken(Key::U),
                86 => TokenKind::KeyToken(Key::V),
                87 => TokenKind::KeyToken(Key::W),
                88 => TokenKind::KeyToken(Key::X),
                89 => TokenKind::KeyToken(Key::Y),
                _ => TokenKind::KeyToken(Key::Z),
            };
        }
        if 48 <= c && c <= 57 {
            return match c {
                48 => TokenKind::KeyToken(Key::Digit0),
                49 => TokenKind::KeyToken(Key::Digit1),
                50 => TokenKind::KeyToken(Key::Digit2),
                51 => TokenKind::KeyToken(Key::Digit3),
                52 => TokenKind::KeyToken(Key::Digit4),
                53 => TokenKind::KeyToken(Key::Digit5),
                54 => TokenKind::KeyToken(Key::Digit6),
                55 => TokenKind::KeyToken(Key::Digit7),
                56 => TokenKind::KeyToken(Key::Digit8),
                _ => TokenKind::KeyToken(Key::Digit9),
            };
        }
        return TokenKind::Unknown;
    }
    if bytes_eq(t, "CTRL") || bytes_eq(t, "CONTROL") {
        TokenKind::Ctrl
    } else if bytes_eq(t, "SHIFT") {
        TokenKind::Shift
    } else if bytes_eq(t, "ALT") {
        TokenKind::Alt
    } else if bytes_eq(t, "META") || bytes_eq(t, "SUPER") || bytes_eq(t, "CMD") || bytes_eq(
        t,
        "COMMAND",
    ) {
        TokenKind::Meta
    } else if bytes_eq(t, "F1") {
        TokenKind::KeyToken(Key::F1)
    } else if bytes_eq(t, "F2") {
        TokenKind::KeyToken(Key::F2)
    } else if bytes_eq(t, "F3") {
        TokenKind::KeyToken(Key::F3)
    } else if bytes_eq(t, "F4") {
        TokenKind::KeyToken(Key::F4)
    } else if bytes_eq(t, "F5") {
        TokenKind::KeyToken(Key::F5)
    } else if bytes_eq(t, "F6") {
        TokenKind::KeyToken(Key::F6)
    } else if bytes_eq(t, "F7") {
        TokenKind::KeyToken(Key::F7)
    } else if bytes_eq(t, "F8") {
        TokenKind::KeyToken(Key::F8)
    } else if bytes_eq(t, "F9") {
        TokenKind::KeyToken(Key::F9)
    } else if bytes_eq(t, "F10") {
        TokenKind::KeyToken(Key::F10)
    } else if bytes_eq(t, "F11") {
        TokenKind::KeyToken(Key::F11)
    } else if bytes_eq(t, "F12") {
        TokenKind::KeyToken(Key::F12)
    } else if bytes_eq(t, "SPACE") {
        TokenKind::KeyToken(Key::Space)
    } else if bytes_eq(t, "ENTER") || bytes_eq(t, "RETURN") {
        TokenKind::KeyToken(Key::Enter)
    } else if bytes_eq(t, "TAB") {
        TokenKind::KeyToken(Key::Tab)
    } else if bytes_eq(t, "ESCAPE") || bytes_eq(t, "ESC") {
        TokenKind::KeyToken(Key::Escape)
    } else if bytes_eq(t, "BACKSPACE") {
        TokenKind::KeyToken(Key::Backspace)
    } else if bytes_eq(t, "DELETE") || bytes_eq(t, "DEL") {
        TokenKind::KeyToken(Key::Delete)
    } else if bytes_eq(t, "INSERT") || bytes_eq(t, "INS") {
        TokenKind::KeyToken(Key::Insert)
    } else if bytes_eq(t, "HOME") {
        TokenKind::KeyToken(Key::Home)
    } else if bytes_eq(t, "END") {
        TokenKind::KeyToken(Key::End)
    } else if bytes_eq(t, "PAGEUP") {
        TokenKind::KeyToken(Key::PageUp)
    } else if bytes_eq(t, "PAGEDOWN") {
        TokenKind::KeyToken(Key::PageDown)
    } else if bytes_eq(t, "UP") || bytes_eq(t, "ARROWUP") {
        TokenKind::KeyToken(Key::Up)
    } else if bytes_eq(t, "DOWN") || bytes_eq(t, "ARROWDOWN") {
        TokenKind::KeyToken(Key::Down)
    } else if bytes_eq(t, "LEFT") || bytes_eq(t, "ARROWLEFT") {
        TokenKind::KeyToken(Key::Left)
    } else if bytes_eq(t, "RIGHT") || bytes_eq(t, "ARROWRIGHT") {
        TokenKind::KeyToken(Key::Right)
    } else {
        TokenKind::Unknown
    }
}

/// Whether a byte is whitespace that token trimming removes.
fn is_space_byte(c: u8) -> (r: bool)
    ensures
        r == is_space(c),
{
    c == 32 || (9 <= c && c <= 13)
}

proof fn lemma_trim_start_skip(t: Seq<u8>, k: int)
    requires
        0 <= k <= t.len(),
        forall|j: int| 0 <= j < k ==> is_space(t[j]),
        k < t.len() ==> !is_space(t[k]),
    ensures
        trim_start(t) == t.skip(k),
    decreases k,
{
    if k == 0 {
        assert(t.skip(0) =~= t);
    } else {
        assert(is_space(t[0]));
        lemma_trim_start_skip(t.drop_first(), k - 1);
        assert(t.drop_first().skip(k - 1) =~= t.skip(k));
    }
}

proof fn lemma_trim_end_take(t: Seq<u8>, m: int)
    requires
        0 <= m <= t.len(),
        forall|j: int| m <= j < t.len() ==> is_space(t[j]),
        m > 0 ==> !is_space(t[m - 1]),
    ensures
        trim_end(t) == t.take(m),
    decreases t.len() - m,
{
    if m == t.len() {
        assert(t.take(m) =~= t);
    } else {
        assert(is_space(t.last()));
        lemma_trim_end_take(t.drop_last(), m);
        assert(t.drop_last().take(m) =~= t.take(m));
    }
}

/// Trims surrounding whitespace and folds ASCII lowercase to uppercase.
fn normalize_token(t: &Vec<u8>) -> (r: Vec<u8>)
    ensures
        r@ == spec_upper(spec_trim(t@)),
{
    let n = t.len();
    let mut start: usize = 0;
    while start < n && is_space_byte(t[start])
        invariant
            start <= n,
            n == t@.len(),
            forall|j: int| 0 <= j < start ==> is_space(t@[j]),
        decreases n - start,
    {
        start = start + 1;
    }
    proof {
        lemma_trim_start_skip(t@, start as int);
    }
    let ghost trimmed_start: Seq<u8> = t@.skip(start as int);
    let mut end: usize = n;
    while end > start && is_space_byte(t[end - 1])
        invariant
            start <= end <= n,
            n == t@.len(),
            forall|j: int| end <= j < n ==> is_space(t@[j]),
        decreases end,
    {
        end = end - 1;
    }
    proof {
        assert(forall|j: int|
            end - start <= j < trimmed_start.len() ==> is_space(trimmed_start[j]));
        lemma_trim_end_take(trimmed_start, end - start);
        assert(spec_trim(t@) == t@.skip(start as int).take(end - start));
    }
    let mut r: Vec<u8> = Vec::new();
    let mut i: usize = start;
    while i < end
        invariant
            start <= i <= end <= n,
            n == t@.len(),
            r@.len() == i - start,
            forall|j: int| 0 <= j < i - start ==> r@[j] == upper_byte(t@[start + j]),
        decreases end - i,
    {
        let c = t[i];
        if 97 <= c && c <= 122 {
            r.push(c - 32);
        } else {
            r.push(c);
        }
        i = i + 1;
    }
    proof {
        assert(r@ =~= spec_upper(spec_trim(t@)));
    }
    r
}

/// Splits the bytes on `+` into tokens.
fn split_tokens(bytes: &Vec<u8>) -> (r: Vec<Vec<u8>>)
    ensures
        r@.map_values(|v: Vec<u8>| v@) == spec_split(bytes@),
{
    let mut tokens: Vec<Vec<u8>> = Vec::new();
    let mut cur: Vec<u8> = Vec::new();
    let mut i: usize = 0;
    while i < bytes.len()
        invariant
            i <= bytes@.len(),
            tokens@.map_values(|v: Vec<u8>| v@).push(cur@) == spec_split(bytes@.take(i as int)),
        decreases bytes@.len() - i,
    {
        let ghost prev: Seq<Seq<u8>> = tokens@.map_values(|v: Vec<u8>| v@).push(cur@);
        if bytes[i] == 43 {
            tokens.push(cur);
            cur = Vec::new();
        } else {
            let c = bytes[i];
            cur.push(c);
        }
        i = i + 1;
        proof {
            assert(bytes@.take(i as int).drop_last() =~= bytes@.take(i - 1));
            assert(bytes@.take(i as int).last() == bytes@[i - 1]);
            if bytes@[i - 1] == 43 {
                assert(tokens@.map_values(|v: Vec<u8>| v@).push(cur@) =~= prev.push(Seq::empty()));
            } else {
                assert(tokens@.map_values(|v: Vec<u8>| v@).push(cur@) =~= prev.update(
                    prev.len() - 1,
                    prev.last().push(bytes@[i - 1]),
                ));
            }
        }
    }
    proof {
        assert(bytes@.take(bytes@.len() as int) =~= bytes@);
    }
    tokens.push(cur);
    tokens
}

/// Parses a shortcut specification: `+`-delimited case-insensitive tokens,
/// zero or more modifiers and at least one key token, the last key token
/// winning; an unknown token, an empty token or a missing key fails with
/// `InvalidShortcut`.
pub fn parse_shortcut(s: &str) -> (r: Result<Shortcut, ShortcutError>)
    ensures
        r == spec_parse_shortcut(s.spec_bytes()),
{
    let bytes = s.as_bytes_vec();
    let tokens = split_tokens(&bytes);
    let ghost toks: Seq<Seq<u8>> = tokens@.map_values(|v: Vec<u8>| v@);
    let mut mods = Modifiers { control: false, shift: false, alt: false, meta: false };
    let mut key: Option<Key> = None;
    let mut i: usize = 0;
    while i < tokens.len()
        invariant
            i <= tokens@.len(),
            toks == tokens@.map_values(|v: Vec<u8>| v@),
            toks == spec_split(s.spec_bytes()),
            spec_parse_from(toks, 0, no_modifiers(), None) == spec_parse_from(
                toks,
                i as int,
                mods,
                key,
            ),
        decreases tokens@.len() - i,
    {
        let norm = normalize_token(&tokens[i]);
        match token_kind(&norm) {
            TokenKind::Ctrl => {
                mods.control = true;
            },
            TokenKind::Shift => {
                mods.shift = true;
            },
            TokenKind::Alt => {
                mods.alt = true;
            },
            TokenKind::Meta => {
                mods.meta = true;
            },
            TokenKind::KeyToken(k) => {
                key = Some(k);
            },
            TokenKind::Unknown => {
                return Err(ShortcutError::InvalidShortcut);
            },
        }
        i = i + 1;
    }
    match key {
        Some(k) => Ok(Shortcut { modifiers: mods, key: k }),
        None => Err(ShortcutError::InvalidShortcut),
    }
}

/// The default trigger: Control and Shift with the key V.
pub fn default_chord() -> (r: Shortcut)
    ensures
        r == (Shortcut {
            modifiers: Modifiers { control: true, shift: true, alt: false, meta: false },
            key: Key::V,
        }),
{
    Shortcut {
        modifiers: Modifiers { control: true, shift: true, alt: false, meta: false },
        key: Key::V,
    }
}

/// An active trigger binding: the parsed chord and its raw string form.
#[derive(Debug, Clone)]
pub struct ShortcutBinding {
    /// The parsed trigger.
    pub chord: Shortcut,
    /// The raw specification the trigger was parsed from.
    pub raw: String,
}

/// The mathematical state of a [`ShortcutBinding`].
pub struct BindingView {
    /// The parsed trigger.
    pub chord: Shortcut,
    /// The raw specification the trigger was parsed from.
    pub raw: Seq<char>,
}

impl View for ShortcutBinding {
    type V = BindingView;

    open spec fn view(&self) -> BindingView {
        BindingView { chord: self.chord, raw: self.raw@ }
    }
}

/// The stored trigger binding: at most one is active at a time, and a
/// rebind replaces it in a two-step unregister/register transaction with a
/// brief window holding none.
pub struct ShortcutManager {
    current: Option<ShortcutBinding>,
}

impl View for ShortcutManager {
    type V = Option<BindingView>;

    closed spec fn view(&self) -> Option<BindingView> {
        match self.current {
            Some(b) => Some(b@),
            None => None,
        }
    }
}

impl ShortcutManager {
    /// A manager with no binding stored yet.
    pub fn new() -> (r: Self)
        ensures
            r@ is None,
    {
        ShortcutManager { current: None }
    }

    /// The stored binding.
    pub fn current(&self) -> (r: &Option<ShortcutBinding>)
        ensures
            self@ == (match (*r) {
                Some(b) => Some(b@),
                None => None::<BindingView>,
            }),
    {
        &self.current
    }

    /// Starts a rebind: parses the new specification and, on success, takes
    /// the stored binding out for the host-level unregister step, leaving
    /// none stored. A specification that does not parse changes nothing and
    /// fails with `InvalidShortcut`.
    pub fn begin_rebind(&mut self, new_spec: &str) -> (r: Result<
        (Shortcut, Option<ShortcutBinding>),
        ShortcutError,
    >)
        ensures
            match r {
                Ok((chord, taken)) => {
                    &&& spec_parse_shortcut(new_spec.spec_bytes()) == Ok::<
                        Shortcut,
                        ShortcutError,
                    >(chord)
                    &&& final(self)@ is None
                    &&& old(self)@ == (match taken {
                        Some(b) => Some(b@),
                        None => None::<BindingView>,
                    })
                },
                Err(e) => {
                    &&& spec_parse_shortcut(new_spec.spec_bytes()) == Err::<Shortcut,
                        ShortcutError,
                    >(e)
                    &&& final(self)@ == old(self)@
                },
            },
    {
        match parse_shortcut(new_spec) {
            Ok(chord) => {
                let taken = self.current.take();
                Ok((chord, taken))
            },
            Err(e) => Err(e),
        }
    }

    /// Finishes a rebind after the host-level register step: stores the new
    /// binding only when registration succeeded; otherwise the stored
    /// reference stays cleared and the rebind fails with
    /// `RegistrationFailed`.
    pub fn commit_rebind(&mut self, chord: Shortcut, raw: String, registered: bool) -> (r: Result<
        (),
        ShortcutError,
    >)
        ensures
            registered ==> r == Ok::<(), ShortcutError>(()) && final(self)@ == Some(
                BindingView { chord, raw: raw@ },
            ),
            !registered ==> r == Err::<(), ShortcutError>(ShortcutError::RegistrationFailed)
                && final(self)@ == old(self)@,
    {
        if registered {
            self.current = Some(ShortcutBinding { chord, raw });
            Ok(())
        } else {
            Err(ShortcutError::RegistrationFailed)
        }
    }

    /// Stores a binding directly, for the initial registration at startup.
    pub fn install(&mut self, chord: Shortcut, raw: String)
        ensures
            final(self)@ == Some(BindingView { chord, raw: raw@ }),
    {
        self.current = Some(ShortcutBinding { chord, raw });
    }
}

/// Parses a stored shortcut specification, falling back to the default
/// trigger where it does not parse.
pub fn parse_or_default(s: &str) -> (r: Shortcut)
    ensures
        r == (match spec_parse_shortcut(s.spec_bytes()) {
            Ok(c) => c,
            Err(_) => Shortcut {
                modifiers: Modifiers { control: true, shift: true, alt: false, meta: false },
                key: Key::V,
            },
        }),
{
    match parse_shortcut(s) {
        Ok(c) => c,
        Err(_) => default_chord(),
    }
}

} // verus!
