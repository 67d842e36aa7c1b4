//! Text as it stands between the quotes of a JSON string.

use vstd::prelude::*;

verus! {

/// The digit that stands for `value` in base sixteen.
pub open spec fn hex_digit(value: int) -> char {
    if value == 0 {
        '0'
    } else if value == 1 {
        '1'
    } else if value == 2 {
        '2'
    } else if value == 3 {
        '3'
    } else if value == 4 {
        '4'
    } else if value == 5 {
        '5'
    } else if value == 6 {
        '6'
    } else if value == 7 {
        '7'
    } else if value == 8 {
        '8'
    } else if value == 9 {
        '9'
    } else if value == 10 {
        'a'
    } else if value == 11 {
        'b'
    } else if value == 12 {
        'c'
    } else if value == 13 {
        'd'
    } else if value == 14 {
        'e'
    } else {
        'f'
    }
}

/// Whether a character may not stand for itself in a JSON string: the
/// quote, the backslash and the control characters.
pub open spec fn needs_escape(c: char) -> bool {
    c == '"' || c == '\\' || (c as u32) < 0x20
}

/// How a character is written in a JSON string: the quote and the
/// backslash behind a backslash, a control character by its number in four
/// digits of base sixteen behind `\u`, every other character as it is.
pub open spec fn escaped_char(c: char) -> Seq<char> {
    if c == '"' {
        seq!['\\', '"']
    } else if c == '\\' {
        seq!['\\', '\\']
    } else if (c as u32) < 0x20 {
        seq!['\\', 'u', '0', '0', hex_digit((c as u32) as int / 16), hex_digit((c as u32) as int % 16)]
    } else {
        seq![c]
    }
}

/// How a text is written in a JSON string: character by character.
pub open spec fn json_escaped(text: Seq<char>) -> Seq<char>
    decreases text.len(),
{
    if text.len() == 0 {
        Seq::empty()
    } else {
        json_escaped(text.drop_last()) + escaped_char(text.last())
    }
}

/// The digit for a value below sixteen, as text.
fn hex_digit_text(value: u32) -> (text: &'static str)
    requires
        value < 16,
    ensures
        text@ == seq![hex_digit(value as int)],
{
    proof {
        reveal_strlit("0");
        reveal_strlit("1");
        reveal_strlit("2");
        reveal_strlit("3");
        reveal_strlit("4");
        reveal_strlit("5");
        reveal_strlit("6");
        reveal_strlit("7");
        reveal_strlit("8");
        reveal_strlit("9");
        reveal_strlit("a");
        reveal_strlit("b");
        reveal_strlit("c");
        reveal_strlit("d");
        reveal_strlit("e");
        reveal_strlit("f");
    }
    let text = if value == 0 {
        "0"
    } else if value == 1 {
        "1"
    } else if value == 2 {
        "2"
    } else if value == 3 {
        "3"
    } else if value == 4 {
        "4"
    } else if value == 5 {
        "5"
    } else if value == 6 {
        "6"
    } else if value == 7 {
        "7"
    } else if value == 8 {
        "8"
    } else if value == 9 {
        "9"
    } else if value == 10 {
        "a"
    } else if value == 11 {
        "b"
    } else if value == 12 {
        "c"
    } else if value == 13 {
        "d"
    } else if value == 14 {
        "e"
    } else {
        "f"
    };
    assert(text@ =~= seq![hex_digit(value as int)]);
    text
}

/// Appends to `json` the character of `text` at `index`, as it is written
/// in a JSON string.
fn append_escaped(json: &mut String, text: &str, index: usize)
    requires
        index < text@.len(),
        text@.len() <= usize::MAX,
    ensures
        final(json)@ == old(json)@ + escaped_char(text@[index as int]),
{
    let c = text.get_char(index);
    let code: u32 = c as u32;
    if c == '"' {
        proof {
            reveal_strlit("\\\"");
            assert("\\\""@ =~= seq!['\\', '"']);
        }
        json.append("\\\"");
    } else if c == '\\' {
        proof {
            reveal_strlit("\\\\");
            assert("\\\\"@ =~= seq!['\\', '\\']);
        }
        json.append("\\\\");
    } else if code < 0x20 {
        proof {
            reveal_strlit("\\u00");
        }
        json.append("\\u00");
        json.append(hex_digit_text(code / 16));
        json.append(hex_digit_text(code % 16));
        assert(json@ =~= old(json)@ + escaped_char(c));
    } else {
        let one = text.substring_char(index, index + 1);
        assert(one@ =~= seq![c]);
        json.append(one);
    }
}

/// Writes `text` as it stands between the quotes of a JSON string.
pub fn json_escape(text: &str) -> (escaped: String)
    ensures
        escaped@ == json_escaped(text@),
{
    let mut escaped = String::from_str("");
    proof {
        reveal_strlit("");
    }
    let length = text.unicode_len();
    let mut index: usize = 0;
    while index < length
        invariant
            index <= length,
            length == text@.len(),
            escaped@ == json_escaped(text@.take(index as int)),
        decreases length - index,
    {
        proof {
            assert(text@.take(index + 1).drop_last() =~= text@.take(index as int));
            assert(text@.take(index + 1).last() == text@[index as int]);
        }
        append_escaped(&mut escaped, text, index);
        index = index + 1;
    }
    proof {
        assert(text@.take(length as int) =~= text@);
    }
    escaped
}

/// The value of a digit of base sixteen, in lower case.
pub open spec fn hex_value(digit: char) -> Option<int> {
    if '0' <= digit <= '9' {
        Some((digit as u32) as int - ('0' as u32) as int)
    } else if 'a' <= digit <= 'f' {
        Some((digit as u32) as int - ('a' as u32) as int + 10)
    } else {
        None
    }
}

/// The text that a reader of JSON takes from between the quotes of a
/// string, as far as this module's own ways of writing go: a character
/// that stands for itself, a quote or backslash behind a backslash, and a
/// control character by its number behind `\u00`. `None` where the string
/// would end before the text does (a bare quote), where a bare control
/// character stands, and for every other use of the backslash.
pub open spec fn json_read(body: Seq<char>) -> Option<Seq<char>>
    decreases body.len(),
{
    if body.len() == 0 {
        Some(Seq::empty())
    } else if needs_escape(body[0]) {
        if body[0] != '\\' || body.len() < 2 {
            None
        } else if body[1] == '"' || body[1] == '\\' {
            match json_read(body.skip(2)) {
                Some(rest) => Some(seq![body[1]] + rest),
                None => None,
            }
        } else if body.len() >= 6 && body[1] == 'u' && body[2] == '0' && body[3] == '0' {
            match (hex_value(body[4]), hex_value(body[5]), json_read(body.skip(6))) {
                (Some(high), Some(low), Some(rest)) => if 16 * high + low < 0x20 {
                    Some(seq![((16 * high + low) as u8) as char] + rest)
                } else {
                    None
                },
                _ => None,
            }
        } else {
            None
        }
    } else {
        match json_read(body.skip(1)) {
            Some(rest) => Some(seq![body[0]] + rest),
            None => None,
        }
    }
}

/// A character as it is written, followed by more, reads back as the
/// character followed by what the rest reads as.
proof fn escaped_char_reads_back(c: char, rest: Seq<char>)
    ensures
        json_read(escaped_char(c) + rest) == (match json_read(rest) {
            Some(read) => Some(seq![c] + read),
            None => None,
        }),
{
    let body = escaped_char(c) + rest;
    let code = (c as u32) as int;
    if c == '"' || c == '\\' {
        assert(body[0] == '\\');
        assert(body[1] == c);
        assert(body.skip(2) =~= rest);
    } else if code < 0x20 {
        assert(body[0] == '\\' && body[1] == 'u' && body[2] == '0' && body[3] == '0');
        assert(body[4] == hex_digit(code / 16));
        assert(body[5] == hex_digit(code % 16));
        assert(body.skip(6) =~= rest);
        assert(hex_value(hex_digit(code / 16)) == Some(code / 16));
        assert(hex_value(hex_digit(code % 16)) == Some(code % 16));
        assert(16 * (code / 16) + code % 16 == code);
        assert(((code as u8) as char) == c);
    } else {
        assert(body[0] == c);
        assert(body.skip(1) =~= rest);
    }
}

/// A text as it is written, followed by more, reads back as the text
/// followed by what the rest reads as.
proof fn escaped_reads_back(text: Seq<char>, rest: Seq<char>)
    ensures
        json_read(json_escaped(text) + rest) == (match json_read(rest) {
            Some(read) => Some(text + read),
            None => None,
        }),
    decreases text.len(),
{
    if text.len() == 0 {
        assert(json_escaped(text) + rest =~= rest);
        match json_read(rest) {
            Some(read) => {
                assert(text + read =~= read);
            },
            None => {},
        }
    } else {
        let earlier = text.drop_last();
        let last = text.last();
        escaped_char_reads_back(last, rest);
        escaped_reads_back(earlier, escaped_char(last) + rest);
        assert(json_escaped(text) + rest =~= json_escaped(earlier) + (escaped_char(last) + rest));
        match json_read(rest) {
            Some(read) => {
                assert(earlier + (seq![last] + read) =~= text + read);
            },
            None => {},
        }
    }
}

/// What is written reads back as the text it was written for, whatever the
/// text holds: no quote in it ends the string and no backslash in it
/// begins an escape of its own. Two texts are therefore written alike only
/// if they are the same text.
pub proof fn written_text_reads_back(text: Seq<char>)
    ensures
        json_read(json_escaped(text)) == Some(text),
{
    escaped_reads_back(text, Seq::empty());
    assert(json_escaped(text) + Seq::<char>::empty() =~= json_escaped(text));
    assert(text + Seq::<char>::empty() =~= text);
}

} // verus!
