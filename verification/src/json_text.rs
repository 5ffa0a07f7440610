//! Compact JSON string-literal rendering.
//!
//! The envelopes and result documents this crate produces embed
//! caller-supplied text inside JSON string literals. The spec functions
//! here pin down the exact escaping discipline of compact JSON
//! serialization (the short escapes `\"`, `\\`, `\b`, `\t`, `\n`, `\f`,
//! `\r`, and `\u00` plus two lowercase hex digits for the remaining
//! control characters), and `json_quote_str` is a verified renderer
//! that produces exactly that form.

use vstd::prelude::*;
use vstd::string::*;

verus! {

/// What a character becomes inside a compact JSON string literal: an
/// escape sequence for the quote, the backslash and the control
/// characters, and the character itself otherwise.
pub open spec fn json_escape_char(c: char) -> Seq<char> {
    if c == '\u{00}' {
        "\\u0000"@
    } else if c == '\u{01}' {
        "\\u0001"@
    } else if c == '\u{02}' {
        "\\u0002"@
    } else if c == '\u{03}' {
        "\\u0003"@
    } else if c == '\u{04}' {
        "\\u0004"@
    } else if c == '\u{05}' {
        "\\u0005"@
    } else if c == '\u{06}' {
        "\\u0006"@
    } else if c == '\u{07}' {
        "\\u0007"@
    } else if c == '\u{08}' {
        "\\b"@
    } else if c == '\u{09}' {
        "\\t"@
    } else if c == '\u{0a}' {
        "\\n"@
    } else if c == '\u{0b}' {
        "\\u000b"@
    } else if c == '\u{0c}' {
        "\\f"@
    } else if c == '\u{0d}' {
        "\\r"@
    } else if c == '\u{0e}' {
        "\\u000e"@
    } else if c == '\u{0f}' {
        "\\u000f"@
    } else if c == '\u{10}' {
        "\\u0010"@
    } else if c == '\u{11}' {
        "\\u0011"@
    } else if c == '\u{12}' {
        "\\u0012"@
    } else if c == '\u{13}' {
        "\\u0013"@
    } else if c == '\u{14}' {
        "\\u0014"@
    } else if c == '\u{15}' {
        "\\u0015"@
    } else if c == '\u{16}' {
        "\\u0016"@
    } else if c == '\u{17}' {
        "\\u0017"@
    } else if c == '\u{18}' {
        "\\u0018"@
    } else if c == '\u{19}' {
        "\\u0019"@
    } else if c == '\u{1a}' {
        "\\u001a"@
    } else if c == '\u{1b}' {
        "\\u001b"@
    } else if c == '\u{1c}' {
        "\\u001c"@
    } else if c == '\u{1d}' {
        "\\u001d"@
    } else if c == '\u{1e}' {
        "\\u001e"@
    } else if c == '\u{1f}' {
        "\\u001f"@
    } else if c == '"' {
        "\\\""@
    } else if c == '\\' {
        "\\\\"@
    } else {
        seq![c]
    }
}

/// The body of the JSON string literal that represents `s`: each
/// character replaced by its escape sequence.
pub open spec fn json_escape_seq(s: Seq<char>) -> Seq<char>
    decreases s.len(),
{
    if s.len() == 0 {
        Seq::empty()
    } else {
        json_escape_seq(s.drop_last()) + json_escape_char(s.last())
    }
}

/// The JSON string literal, surrounding quotes included, that compact
/// JSON serialization produces for the text `s`.
pub open spec fn json_quote(s: Seq<char>) -> Seq<char> {
    seq!['"'] + json_escape_seq(s) + seq!['"']
}

/// The escape sequence that replaces `c` inside a JSON string literal,
/// or `None` where `c` stands for itself.
fn escape_of(c: char) -> (r: Option<&'static str>)
    ensures
        r matches Some(e) ==> e@ == json_escape_char(c),
        r is None ==> json_escape_char(c) == seq![c],
{
    if c == '\u{00}' {
        Some("\\u0000")
    } else if c == '\u{01}' {
        Some("\\u0001")
    } else if c == '\u{02}' {
        Some("\\u0002")
    } else if c == '\u{03}' {
        Some("\\u0003")
    } else if c == '\u{04}' {
        Some("\\u0004")
    } else if c == '\u{05}' {
        Some("\\u0005")
    } else if c == '\u{06}' {
        Some("\\u0006")
    } else if c == '\u{07}' {
        Some("\\u0007")
    } else if c == '\u{08}' {
        Some("\\b")
    } else if c == '\u{09}' {
        Some("\\t")
    } else if c == '\u{0a}' {
        Some("\\n")
    } else if c == '\u{0b}' {
        Some("\\u000b")
    } else if c == '\u{0c}' {
        Some("\\f")
    } else if c == '\u{0d}' {
        Some("\\r")
    } else if c == '\u{0e}' {
        Some("\\u000e")
    } else if c == '\u{0f}' {
        Some("\\u000f")
    } else if c == '\u{10}' {
        Some("\\u0010")
    } else if c == '\u{11}' {
        Some("\\u0011")
    } else if c == '\u{12}' {
        Some("\\u0012")
    } else if c == '\u{13}' {
        Some("\\u0013")
    } else if c == '\u{14}' {
        Some("\\u0014")
    } else if c == '\u{15}' {
        Some("\\u0015")
    } else if c == '\u{16}' {
        Some("\\u0016")
    } else if c == '\u{17}' {
        Some("\\u0017")
    } else if c == '\u{18}' {
        Some("\\u0018")
    } else if c == '\u{19}' {
        Some("\\u0019")
    } else if c == '\u{1a}' {
        Some("\\u001a")
    } else if c == '\u{1b}' {
        Some("\\u001b")
    } else if c == '\u{1c}' {
        Some("\\u001c")
    } else if c == '\u{1d}' {
        Some("\\u001d")
    } else if c == '\u{1e}' {
        Some("\\u001e")
    } else if c == '\u{1f}' {
        Some("\\u001f")
    } else if c == '"' {
        Some("\\\"")
    } else if c == '\\' {
        Some("\\\\")
    } else {
        None
    }
}

/// Renders `s` as a JSON string literal, escaping exactly as compact
/// JSON serialization does.
pub fn json_quote_str(s: &str) -> (r: String)
    ensures
        r@ == json_quote(s@),
{
    let n: usize = s.unicode_len();
    let mut out = String::from_str("\"");
    proof {
        reveal_strlit("\"");
        assert(out@ =~= seq!['"'] + json_escape_seq(s@.subrange(0, 0)));
    }
    let mut i: usize = 0;
    while i < n
        invariant
            n == s@.len(),
            i <= n,
            out@ == seq!['"'] + json_escape_seq(s@.subrange(0, i as int)),
        decreases n - i,
    {
        let c = s.get_char(i);
        proof {
            assert(s@.subrange(0, i + 1).drop_last() =~= s@.subrange(0, i as int));
            assert(s@.subrange(0, i + 1).last() == s@[i as int]);
        }
        match escape_of(c) {
            Some(e) => {
                out.append(e);
            },
            None => {
                let piece = s.substring_char(i, i + 1);
                proof {
                    assert(piece@ =~= seq![s@[i as int]]);
                }
                out.append(piece);
            },
        }
        proof {
            assert(out@ =~= seq!['"'] + json_escape_seq(s@.subrange(0, i + 1)));
        }
        i = i + 1;
    }
    proof {
        assert(s@.subrange(0, n as int) =~= s@);
    }
    out.append("\"");
    proof {
        assert(out@ =~= json_quote(s@));
    }
    out
}

} // verus!
