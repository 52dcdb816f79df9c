//! The identifier mint: turns interface-description names (kebab-case,
//! snake_case, dotted or spaced) into Go identifiers, public (UpperCamel) or
//! private (lowerCamel), with Go keywords suffixed by an underscore.

use vstd::prelude::*;

use crate::strutil::{push_char, str_eq};

verus! {

pub open spec fn is_ascii_lower(c: char) -> bool {
    'a' <= c && c <= 'z'
}

pub open spec fn is_ascii_upper(c: char) -> bool {
    'A' <= c && c <= 'Z'
}

pub open spec fn is_ascii_digit(c: char) -> bool {
    '0' <= c && c <= '9'
}

/// Characters that belong to a word; everything else separates words.
pub open spec fn is_word_char(c: char) -> bool {
    is_ascii_lower(c) || is_ascii_upper(c) || is_ascii_digit(c)
}

pub open spec fn spec_lower_char(c: char) -> char {
    if is_ascii_upper(c) {
        ((c as u8) + 32) as char
    } else {
        c
    }
}

pub open spec fn spec_upper_char(c: char) -> char {
    if is_ascii_lower(c) {
        ((c as u8) - 32) as char
    } else {
        c
    }
}

/// A word break falls inside a run of word characters on a case transition
/// (`aB`) or when a digit is followed by a letter (`2x`).
pub open spec fn word_boundary(prev: char, c: char) -> bool {
    (is_ascii_lower(prev) && is_ascii_upper(c)) || (is_ascii_digit(prev) && (is_ascii_lower(c)
        || is_ascii_upper(c)))
}

/// One step of the normalizing scan. The state is the output so far, the
/// previous word character (`None` right after a separator or at the start),
/// and whether the first word has begun.
pub open spec fn scan_step(
    out: Seq<char>,
    prev: Option<char>,
    started: bool,
    c: char,
    public: bool,
) -> (Seq<char>, Option<char>, bool) {
    if is_word_char(c) {
        let new_word = match prev {
            Option::None => true,
            Option::Some(p) => word_boundary(p, c),
        };
        let e = if new_word {
            if public || started {
                spec_upper_char(c)
            } else {
                spec_lower_char(c)
            }
        } else {
            spec_lower_char(c)
        };
        (out.push(e), Option::Some(c), true)
    } else {
        (out, Option::None, started)
    }
}

/// The scan state after the first `i` characters of `s`.
pub open spec fn scan(s: Seq<char>, i: int, public: bool) -> (Seq<char>, Option<char>, bool)
    decreases i,
{
    if i <= 0 {
        (Seq::<char>::empty(), Option::None, false)
    } else {
        let st = scan(s, i - 1, public);
        scan_step(st.0, st.1, st.2, s[i - 1], public)
    }
}

/// The camel-cased text of `s`: UpperCamel when `public`, else lowerCamel.
pub open spec fn camel_of(s: Seq<char>, public: bool) -> Seq<char> {
    scan(s, s.len() as int, public).0
}

pub open spec fn is_go_keyword(s: Seq<char>) -> bool {
    ||| s == "break"@
    ||| s == "case"@
    ||| s == "chan"@
    ||| s == "const"@
    ||| s == "continue"@
    ||| s == "default"@
    ||| s == "defer"@
    ||| s == "else"@
    ||| s == "fallthrough"@
    ||| s == "for"@
    ||| s == "func"@
    ||| s == "go"@
    ||| s == "goto"@
    ||| s == "if"@
    ||| s == "import"@
    ||| s == "interface"@
    ||| s == "map"@
    ||| s == "package"@
    ||| s == "range"@
    ||| s == "return"@
    ||| s == "select"@
    ||| s == "struct"@
    ||| s == "switch"@
    ||| s == "type"@
    ||| s == "var"@
}

/// The minted identifier text for a raw name: the camel-cased form, with an
/// underscore appended when it would collide with a Go keyword.
pub open spec fn minted(s: Seq<char>, public: bool) -> Seq<char> {
    let base = camel_of(s, public);
    if is_go_keyword(base) {
        base + "_"@
    } else {
        base
    }
}

/// A Go identifier in normalized form; equality of the normalized text is
/// equality of identifiers.
#[derive(Debug)]
pub struct GoIdentifier {
    text: String,
}

impl PartialEq for GoIdentifier {
    fn eq(&self, other: &GoIdentifier) -> (r: bool) {
        str_eq(self.text.as_str(), other.text.as_str())
    }
}

impl vstd::std_specs::cmp::PartialEqSpecImpl for GoIdentifier {
    open spec fn obeys_eq_spec() -> bool {
        true
    }

    open spec fn eq_spec(&self, other: &GoIdentifier) -> bool {
        self@ == other@
    }
}

impl View for GoIdentifier {
    type V = Seq<char>;

    closed spec fn view(&self) -> Seq<char> {
        self.text@
    }
}

fn is_keyword_str(s: &str) -> (r: bool)
    ensures
        r == is_go_keyword(s@),
{
    str_eq(s, "break") || str_eq(s, "case") || str_eq(s, "chan") || str_eq(s, "const") || str_eq(
        s,
        "continue",
    ) || str_eq(s, "default") || str_eq(s, "defer") || str_eq(s, "else") || str_eq(
        s,
        "fallthrough",
    ) || str_eq(s, "for") || str_eq(s, "func") || str_eq(s, "go") || str_eq(s, "goto") || str_eq(
        s,
        "if",
    ) || str_eq(s, "import") || str_eq(s, "interface") || str_eq(s, "map") || str_eq(s, "package")
        || str_eq(s, "range") || str_eq(s, "return") || str_eq(s, "select") || str_eq(s, "struct")
        || str_eq(s, "switch") || str_eq(s, "type") || str_eq(s, "var")
}

fn lower_char(c: char) -> (r: char)
    ensures
        r == spec_lower_char(c),
{
    if 'A' <= c && c <= 'Z' {
        ((c as u8) + 32) as char
    } else {
        c
    }
}

fn upper_char(c: char) -> (r: char)
    ensures
        r == spec_upper_char(c),
{
    if 'a' <= c && c <= 'z' {
        ((c as u8) - 32) as char
    } else {
        c
    }
}

fn word_char(c: char) -> (r: bool)
    ensures
        r == is_word_char(c),
{
    ('a' <= c && c <= 'z') || ('A' <= c && c <= 'Z') || ('0' <= c && c <= '9')
}

fn mint(raw: &str, public: bool) -> (r: String)
    ensures
        r@ == minted(raw@, public),
{
    let n = raw.unicode_len();
    let mut out = String::new();
    let mut prev: Option<char> = None;
    let mut started: bool = false;
    let mut i: usize = 0;
    while i < n
        invariant
            0 <= i <= n,
            n == raw@.len(),
            out@ == scan(raw@, i as int, public).0,
            prev == scan(raw@, i as int, public).1,
            started == scan(raw@, i as int, public).2,
        decreases n - i,
    {
        let c = raw.get_char(i);
        if word_char(c) {
            let new_word = match prev {
                None => true,
                Some(p) => {
                    (is_lower_exec(p) && is_upper_exec(c)) || (is_digit_exec(p) && (is_lower_exec(c)
                        || is_upper_exec(c)))
                },
            };
            let e = if new_word {
                if public || started {
                    upper_char(c)
                } else {
                    lower_char(c)
                }
            } else {
                lower_char(c)
            };
            push_char(&mut out, e);
            prev = Some(c);
            started = true;
        } else {
            prev = None;
        }
        i = i + 1;
    }
    if is_keyword_str(out.as_str()) {
        out.append("_");
    }
    out
}

fn is_lower_exec(c: char) -> (r: bool)
    ensures
        r == is_ascii_lower(c),
{
    'a' <= c && c <= 'z'
}

fn is_upper_exec(c: char) -> (r: bool)
    ensures
        r == is_ascii_upper(c),
{
    'A' <= c && c <= 'Z'
}

fn is_digit_exec(c: char) -> (r: bool)
    ensures
        r == is_ascii_digit(c),
{
    '0' <= c && c <= '9'
}

impl GoIdentifier {
    /// Mints a public (exported, UpperCamel) Go identifier from a raw name.
    pub fn public(raw: &str) -> (r: GoIdentifier)
        ensures
            r@ == minted(raw@, true),
    {
        GoIdentifier { text: mint(raw, true) }
    }

    /// Mints a private (unexported, lowerCamel) Go identifier from a raw name.
    pub fn private(raw: &str) -> (r: GoIdentifier)
        ensures
            r@ == minted(raw@, false),
    {
        GoIdentifier { text: mint(raw, false) }
    }

    pub fn as_str(&self) -> (r: &str)
        ensures
            r@ == self@,
    {
        self.text.as_str()
    }

    pub fn duplicate(&self) -> (r: GoIdentifier)
        ensures
            r == *self,
    {
        GoIdentifier { text: self.text.clone() }
    }
}

} // verus!
