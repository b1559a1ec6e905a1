//! The transcription exchange: the request body handed to the remote
//! transcription service, framed and escaped here, and the interpretation
//! of what comes back. The transport itself (HTTP, headers, the await) is
//! outside the library; it hands status, body and the extracted fields in.

use vstd::prelude::*;
use vstd::string::StrSliceExecFns;
use vstd::string::StringExecFns;

verus! {

/// The model asked for when the caller names none.
pub const DEFAULT_MODEL: &'static str = "google/gemini-2.5-flash";

/// The decimal digit character for a value below ten.
pub open spec fn digit_char(d: int) -> char
    recommends
        0 <= d < 10,
{
    ((48 + d) as u8) as char
}

/// The decimal digits of a nonnegative number, most significant first.
pub open spec fn dec_digits(n: int) -> Seq<char>
    recommends
        n >= 0,
    decreases n,
{
    if n < 10 {
        seq![digit_char(n)]
    } else {
        dec_digits(n / 10).push(digit_char(n % 10))
    }
}

/// The lowercase hexadecimal digit character for a value below sixteen.
pub open spec fn hex_digit(d: int) -> char
    recommends
        0 <= d < 16,
{
    if d < 10 {
        ((48 + d) as u8) as char
    } else {
        ((87 + d) as u8) as char
    }
}

/// The JSON escape of one character: quote and backslash escaped, the named
/// control escapes, other control characters in `\u00..` form, everything
/// else itself.
pub open spec fn json_escape_char(c: char) -> Seq<char> {
    if c == '"' {
        seq!['\\', '"']
    } else if c == '\\' {
        seq!['\\', '\\']
    } else if c == '\u{8}' {
        seq!['\\', 'b']
    } else if c == '\t' {
        seq!['\\', 't']
    } else if c == '\n' {
        seq!['\\', 'n']
    } else if c == '\u{c}' {
        seq!['\\', 'f']
    } else if c == '\r' {
        seq!['\\', 'r']
    } else if (c as u32) < 32 {
        seq!['\\', 'u', '0', '0', hex_digit(c as u32 as int / 16), hex_digit(c as u32 as int % 16)]
    } else {
        seq![c]
    }
}

/// The JSON escape of a string's characters.
pub open spec fn spec_json_escape(s: Seq<char>) -> Seq<char>
    decreases s.len(),
{
    if s.len() == 0 {
        Seq::empty()
    } else {
        json_escape_char(s[0]) + spec_json_escape(s.drop_first())
    }
}

proof fn lemma_json_escape_snoc(s: Seq<char>, c: char)
    ensures
        spec_json_escape(s.push(c)) == spec_json_escape(s) + json_escape_char(c),
    decreases s.len(),
{
    let p = s.push(c);
    if s.len() == 0 {
        assert(p.drop_first() =~= s);
        assert(spec_json_escape(p) == json_escape_char(p[0]) + spec_json_escape(s));
        assert(p[0] == c);
        assert(spec_json_escape(p) =~= spec_json_escape(s) + json_escape_char(c));
    } else {
        lemma_json_escape_snoc(s.drop_first(), c);
        assert(p.drop_first() =~= s.drop_first().push(c));
        assert(spec_json_escape(p) == json_escape_char(p[0]) + spec_json_escape(p.drop_first()));
        assert(p[0] == s[0]);
        assert(spec_json_escape(s) == json_escape_char(s[0]) + spec_json_escape(s.drop_first()));
        assert(spec_json_escape(p) =~= spec_json_escape(s) + json_escape_char(c));
    }
}

/// The decimal string of a number.
pub fn u32_decimal(n: u32) -> (r: String)
    ensures
        r@ == dec_digits(n as int),
    decreases n,
{
    let d: u32 = n % 10;
    let ds: &'static str = match d {
        0 => "0",
        1 => "1",
        2 => "2",
        3 => "3",
        4 => "4",
        5 => "5",
        6 => "6",
        7 => "7",
        8 => "8",
        _ => "9",
    };
    proof {
        reveal_strlit("0");
        reveal_strlit("1");
        reveal_strlit("2");
        reveal_strlit("3");
        reveal_strlit("4");
        reveal_strlit("5");
        reveal_strlit("6");
        reveal_strlit("7");
        reveal_strlit("8");
        reveal_strlit("9");
        assert(ds@ =~= seq![digit_char(n as int % 10)]);
    }
    if n < 10 {
        let r = String::from_str(ds);
        proof {
            assert(r@ =~= dec_digits(n as int));
        }
        r
    } else {
        let mut r = u32_decimal(n / 10);
        r.append(ds);
        proof {
            assert(r@ =~= dec_digits(n as int));
        }
        r
    }
}

/// A single lowercase hexadecimal digit as a string.
fn hex_digit_str(d: u32) -> (r: &'static str)
    requires
        d < 16,
    ensures
        r@ == seq![hex_digit(d as int)],
{
    let r: &'static str = match d {
        0 => "0",
        1 => "1",
        2 => "2",
        3 => "3",
        4 => "4",
        5 => "5",
        6 => "6",
        7 => "7",
        8 => "8",
        9 => "9",
        10 => "a",
        11 => "b",
        12 => "c",
        13 => "d",
        14 => "e",
        _ => "f",
    };
    proof {
        reveal_strlit("0");
        reveal_strlit("1");
        reveal_strlit("2");
        reveal_strlit("3");
        reveal_strlit("4");
        reveal_strlit("5");
        reveal_strlit("6");
        reveal_strlit("7");
        reveal_strlit("8");
        reveal_strlit("9");
        reveal_strlit("a");
        reveal_strlit("b");
        reveal_strlit("c");
        reveal_strlit("d");
        reveal_strlit("e");
        reveal_strlit("f");
        assert(r@ =~= seq![hex_digit(d as int)]);
    }
    r
}

/// Escapes a string for inclusion in a JSON string literal.
pub fn json_escape(s: &str) -> (r: String)
    ensures
        r@ == spec_json_escape(s@),
{
    let n = s.unicode_len();
    let mut r = String::new();
    let mut i: usize = 0;
    while i < n
        invariant
            i <= n,
            n == s@.len(),
            r@ == spec_json_escape(s@.take(i as int)),
        decreases n - i,
    {
        let c = s.get_char(i);
        if c == '"' {
            r.append("\\\"");
            proof {
                reveal_strlit("\\\"");
                assert(("\\\"")@ =~= json_escape_char(c));
            }
        } else if c == '\\' {
            r.append("\\\\");
            proof {
                reveal_strlit("\\\\");
                assert(("\\\\")@ =~= json_escape_char(c));
            }
        } else if c == '\u{8}' {
            r.append("\\b");
            proof {
                reveal_strlit("\\b");
                assert(("\\b")@ =~= json_escape_char(c));
            }
        } else if c == '\t' {
            r.append("\\t");
            proof {
                reveal_strlit("\\t");
                assert(("\\t")@ =~= json_escape_char(c));
            }
        } else if c == '\n' {
            r.append("\\n");
            proof {
                reveal_strlit("\\n");
                assert(("\\n")@ =~= json_escape_char(c));
            }
        } else if c == '\u{c}' {
            r.append("\\f");
            proof {
                reveal_strlit("\\f");
                assert(("\\f")@ =~= json_escape_char(c));
            }
        } else if c == '\r' {
            r.append("\\r");
            proof {
                reveal_strlit("\\r");
                assert(("\\r")@ =~= json_escape_char(c));
            }
        } else if (c as u32) < 32 {
            let v = c as u32;
            let ghost r_before: Seq<char> = r@;
            r.append("\\u00");
            r.append(hex_digit_str(v / 16));
            r.append(hex_digit_str(v % 16));
            proof {
                reveal_strlit("\\u00");
                assert(r@ =~= r_before + json_escape_char(c));
            }
        } else {
            let piece = s.substring_char(i, i + 1);
            r.append(piece);
            proof {
                assert(piece@ =~= json_escape_char(c));
            }
        }
        i = i + 1;
        proof {
            assert(s@.take(i as int) =~= s@.take(i - 1).push(c));
            lemma_json_escape_snoc(s@.take(i - 1), c);
            assert(r@ =~= spec_json_escape(s@.take(i as int)));
        }
    }
    proof {
        assert(s@.take(n as int) =~= s@);
    }
    r
}

/// The complete request body sent to the transcription service: the model,
/// then one user message holding the fixed instruction text and the base64
/// audio in WAV form, each inserted string JSON-escaped.
pub open spec fn spec_request_json(model: Seq<char>, audio: Seq<char>) -> Seq<char> {
    ("{\"model\":\"")@ + spec_json_escape(model)
        + (
    "\",\"messages\":[{\"role\":\"user\",\"content\":[{\"type\":\"text\",\"text\":\"Transcribe this audio exactly as spoken. Output only the transcription, nothing else. If the audio is in Portuguese, transcribe in Portuguese. If in English, transcribe in English. Preserve the original language.\"},{\"type\":\"input_audio\",\"input_audio\":{\"data\":\"")@
        + spec_json_escape(audio) + ("\",\"format\":\"wav\"}}]}]}")@
}

/// Builds the request body for one transcription call; with no model named,
/// the default model is asked for.
pub fn build_transcription_request(audio_base64: &str, model: Option<&str>) -> (r: String)
    ensures
        r@ == spec_request_json(
            match model {
                Some(m) => m@,
                None => DEFAULT_MODEL@,
            },
            audio_base64@,
        ),
{
    let m: &str = match model {
        Some(m) => m,
        None => DEFAULT_MODEL,
    };
    let mut r = String::from_str("{\"model\":\"");
    r.append(json_escape(m).as_str());
    r.append(
        "\",\"messages\":[{\"role\":\"user\",\"content\":[{\"type\":\"text\",\"text\":\"Transcribe this audio exactly as spoken. Output only the transcription, nothing else. If the audio is in Portuguese, transcribe in Portuguese. If in English, transcribe in English. Preserve the original language.\"},{\"type\":\"input_audio\",\"input_audio\":{\"data\":\"",
    );
    r.append(json_escape(audio_base64).as_str());
    r.append("\",\"format\":\"wav\"}}]}]}");
    r
}

/// Whether a character counts as whitespace when the transcription text is
/// trimmed.
pub open spec fn is_ws_char(c: char) -> bool {
    c == ' ' || c == '\t' || c == '\n' || c == '\r'
}

/// The text with leading whitespace removed.
pub open spec fn trim_chars_start(s: Seq<char>) -> Seq<char>
    decreases s.len(),
{
    if s.len() > 0 && is_ws_char(s[0]) {
        trim_chars_start(s.drop_first())
    } else {
        s
    }
}

/// The text with trailing whitespace removed.
pub open spec fn trim_chars_end(s: Seq<char>) -> Seq<char>
    decreases s.len(),
{
    if s.len() > 0 && is_ws_char(s.last()) {
        trim_chars_end(s.drop_last())
    } else {
        s
    }
}

/// The text with surrounding whitespace removed.
pub open spec fn spec_trim_chars(s: Seq<char>) -> Seq<char> {
    trim_chars_end(trim_chars_start(s))
}

proof fn lemma_trim_chars_start_skip(s: Seq<char>, k: int)
    requires
        0 <= k <= s.len(),
        forall|j: int| 0 <= j < k ==> is_ws_char(s[j]),
        k < s.len() ==> !is_ws_char(s[k]),
    ensures
        trim_chars_start(s) == s.skip(k),
    decreases k,
{
    if k == 0 {
        assert(s.skip(0) =~= s);
    } else {
        lemma_trim_chars_start_skip(s.drop_first(), k - 1);
        assert(s.drop_first().skip(k - 1) =~= s.skip(k));
    }
}

proof fn lemma_trim_chars_end_take(s: Seq<char>, m: int)
    requires
        0 <= m <= s.len(),
        forall|j: int| m <= j < s.len() ==> is_ws_char(s[j]),
        m > 0 ==> !is_ws_char(s[m - 1]),
    ensures
        trim_chars_end(s) == s.take(m),
    decreases s.len() - m,
{
    if m == s.len() {
        assert(s.take(m) =~= s);
    } else {
        lemma_trim_chars_end_take(s.drop_last(), m);
        assert(s.drop_last().take(m) =~= s.take(m));
    }
}

/// Whether a character counts as whitespace when the transcription text is
/// trimmed.
fn is_ws(c: char) -> (r: bool)
    ensures
        r == is_ws_char(c),
{
    c == ' ' || c == '\t' || c == '\n' || c == '\r'
}

/// Removes surrounding whitespace from the text.
pub fn trim_string(s: &str) -> (r: String)
    ensures
        r@ == spec_trim_chars(s@),
{
    let n = s.unicode_len();
    let mut start: usize = 0;
    while start < n && is_ws(s.get_char(start))
        invariant
            start <= n,
            n == s@.len(),
            forall|j: int| 0 <= j < start ==> is_ws_char(s@[j]),
        decreases n - start,
    {
        start = start + 1;
    }
    proof {
        lemma_trim_chars_start_skip(s@, start as int);
    }
    let ghost trimmed: Seq<char> = s@.skip(start as int);
    let mut end: usize = n;
    while end > start && is_ws(s.get_char(end - 1))
        invariant
            start <= end <= n,
            n == s@.len(),
            forall|j: int| end <= j < n ==> is_ws_char(s@[j]),
        decreases end,
    {
        end = end - 1;
    }
    proof {
        assert(forall|j: int| end - start <= j < trimmed.len() ==> is_ws_char(trimmed[j]));
        lemma_trim_chars_end_take(trimmed, end - start);
    }
    let piece = s.substring_char(start, end);
    let r = String::from_str(piece);
    proof {
        assert(r@ =~= spec_trim_chars(s@));
    }
    r
}

/// What the transport layer extracted from the service's reply: whether the
/// body parsed, the error object's message if one was there, and the first
/// choice's text if one was there.
pub struct ResponseFields {
    /// The error object: nothing when absent, a message when it carries
    /// one, an empty slot when it carries none.
    pub api_error: Option<Option<String>>,
    /// The first choice's message content, when the body parsed and held
    /// one.
    pub content: Option<String>,
    /// The parser's own words, when the body did not parse as a reply.
    pub parse_error: Option<String>,
}

/// The mathematical state of [`ResponseFields`].
pub struct ResponseFieldsView {
    /// The error object and its message.
    pub api_error: Option<Option<Seq<char>>>,
    /// The first choice's message content.
    pub content: Option<Seq<char>>,
    /// The parser's own words for a body that did not parse.
    pub parse_error: Option<Seq<char>>,
}

impl View for ResponseFields {
    type V = ResponseFieldsView;

    open spec fn view(&self) -> ResponseFieldsView {
        ResponseFieldsView {
            api_error: match self.api_error {
                Some(Some(m)) => Some(Some(m@)),
                Some(None) => Some(None),
                None => None,
            },
            content: match self.content {
                Some(c) => Some(c@),
                None => None,
            },
            parse_error: match self.parse_error {
                Some(e) => Some(e@),
                None => None,
            },
        }
    }
}

/// What the reply means: a failing status yields the service's error
/// message, or the raw body where none was found; a successful status
/// yields the parse failure, the reply's own error, or the trimmed
/// transcription, a reply without one failing too.
pub open spec fn spec_interpret(status: int, body: Seq<char>, f: ResponseFieldsView) -> Result<
    Seq<char>,
    Seq<char>,
> {
    let success = 200 <= status <= 299;
    if !success {
        match f.api_error {
            Some(m) => Err(
                ("API error (")@ + dec_digits(status) + ("): ")@ + (match m {
                    Some(msg) => msg,
                    None => ("Unknown error")@,
                }),
            ),
            None => Err(("API request failed with status ")@ + dec_digits(status) + (": ")@ + body),
        }
    } else {
        match f.parse_error {
            Some(e) => Err(("Failed to parse response: ")@ + e + (" - Body: ")@ + body),
            None => match f.api_error {
                Some(m) => Err(
                    ("API error: ")@ + (match m {
                        Some(msg) => msg,
                        None => ("Unknown error")@,
                    }),
                ),
                None => match f.content {
                    Some(c) => Ok(spec_trim_chars(c)),
                    None => Err(("No transcription in response")@),
                },
            },
        }
    }
}

/// Decides what one reply from the transcription service means, from the
/// status code, the raw body, and the fields the transport layer extracted.
pub fn interpret_response(status: u16, body: &str, fields: &ResponseFields) -> (r: Result<
    String,
    String,
>)
    ensures
        match r {
            Ok(t) => spec_interpret(status as int, body@, fields@) matches Ok(v) && t@ == v,
            Err(e) => spec_interpret(status as int, body@, fields@) matches Err(v) && e@ == v,
        },
{
    let success = 200 <= status && status <= 299;
    if !success {
        match &fields.api_error {
            Some(m) => {
                let mut r = String::from_str("API error (");
                r.append(u32_decimal(status as u32).as_str());
                r.append("): ");
                match m {
                    Some(msg) => r.append(msg.as_str()),
                    None => r.append("Unknown error"),
                }
                Err(r)
            },
            None => {
                let mut r = String::from_str("API request failed with status ");
                r.append(u32_decimal(status as u32).as_str());
                r.append(": ");
                r.append(body);
                Err(r)
            },
        }
    } else {
        match &fields.parse_error {
            Some(e) => {
                let mut r = String::from_str("Failed to parse response: ");
                r.append(e.as_str());
                r.append(" - Body: ");
                r.append(body);
                Err(r)
            },
            None => match &fields.api_error {
                Some(m) => {
                    let mut r = String::from_str("API error: ");
                    match m {
                        Some(msg) => r.append(msg.as_str()),
                        None => r.append("Unknown error"),
                    }
                    Err(r)
                },
                None => match &fields.content {
                    Some(c) => Ok(trim_string(c.as_str())),
                    None => Err(String::from_str("No transcription in response")),
                },
            },
        }
    }
}

} // verus!
