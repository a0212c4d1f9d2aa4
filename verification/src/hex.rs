//! Bytes written as hexadecimal text.
use vstd::prelude::*;

verus! {

/// Whether `c` is a hexadecimal digit, of either case.
pub open spec fn is_digit(c: char) -> bool {
    '0' <= c <= '9' || 'A' <= c <= 'F' || 'a' <= c <= 'f'
}

/// The value of a hexadecimal digit.
pub open spec fn digit_value(c: char) -> int {
    if '0' <= c <= '9' {
        c as int - '0' as int
    } else if 'A' <= c <= 'F' {
        c as int - 'A' as int + 10
    } else {
        c as int - 'a' as int + 10
    }
}

/// The upper-case digit with value `v`.
pub open spec fn upper_digit(v: int) -> char {
    if v < 10 {
        ('0' as int + v) as char
    } else {
        ('A' as int + v - 10) as char
    }
}

/// The upper-case text of `bytes`: two digits for each byte, the high one
/// first.
pub open spec fn upper_text(bytes: Seq<u8>) -> Seq<char> {
    Seq::new(
        2 * bytes.len(),
        |i: int| upper_digit(if i % 2 == 0 { bytes[i / 2] / 16 } else { bytes[i / 2] % 16 } as int),
    )
}

/// The bytes that `text` writes: none where its length is odd or one of its
/// characters is no digit.
pub open spec fn bytes_of(text: Seq<char>) -> Option<Seq<u8>> {
    if text.len() % 2 == 0 && forall|i: int| 0 <= i < text.len() ==> is_digit(#[trigger] text[i]) {
        Some(
            Seq::new(
                text.len() / 2,
                |i: int| (16 * digit_value(text[2 * i]) + digit_value(text[2 * i + 1])) as u8,
            ),
        )
    } else {
        None
    }
}

/// What is wrong with a text that writes no bytes.
#[derive(Clone, Copy, Debug, PartialEq, Eq, Structural)]
pub enum HexError {
    /// Some character is no hexadecimal digit.
    Digit,
    /// All characters are digits, but the last one stands alone.
    Length,
}

/// The value of `c`, if it is a hexadecimal digit.
fn digit(c: char) -> (res: Option<u8>)
    ensures
        is_digit(c) ==> res == Some(digit_value(c) as u8) && 0 <= digit_value(c) < 16,
        !is_digit(c) ==> res is None,
{
    if '0' <= c && c <= '9' {
        Some((c as u32 - '0' as u32) as u8)
    } else if 'A' <= c && c <= 'F' {
        Some((c as u32 - 'A' as u32 + 10) as u8)
    } else if 'a' <= c && c <= 'f' {
        Some((c as u32 - 'a' as u32 + 10) as u8)
    } else {
        None
    }
}

/// Reads hexadecimal text.
pub fn decode_hex(text: &str) -> (res: Result<Vec<u8>, HexError>)
    ensures
        res is Ok <==> bytes_of(text@) is Some,
        res matches Ok(bytes) ==> bytes_of(text@) == Some(bytes@),
        res == Err::<Vec<u8>, HexError>(HexError::Digit) <==> exists|i: int|
            0 <= i < text@.len() && !is_digit(#[trigger] text@[i]),
{
    let mut bytes: Vec<u8> = Vec::new();
    let mut high: Option<u8> = None;
    for c in iter: text.chars()
        invariant
            iter.seq() == text@,
            bytes@.len() == iter.index() / 2,
            high is Some <==> iter.index() % 2 == 1,
            high matches Some(h) ==> h == digit_value(text@[iter.index() - 1]) && h < 16,
            forall|i: int| 0 <= i < iter.index() ==> is_digit(#[trigger] text@[i]),
            forall|i: int|
                0 <= i < bytes@.len() ==> #[trigger] bytes@[i] == (16 * digit_value(text@[2 * i])
                    + digit_value(text@[2 * i + 1])) as u8,
    {
        assert(c == text@[iter.index() as int]);
        match digit(c) {
            None => {
                return Err(HexError::Digit);
            },
            Some(d) => {
                match high {
                    None => {
                        high = Some(d);
                    },
                    Some(h) => {
                        bytes.push(16 * h + d);
                        high = None;
                    },
                }
            },
        }
    }
    if high.is_some() {
        return Err(HexError::Length);
    }
    proof {
        assert(bytes@ =~= bytes_of(text@)->Some_0);
    }
    Ok(bytes)
}

/// Text written from bytes reads back as those bytes.
pub proof fn upper_text_reads_back(bytes: Seq<u8>)
    ensures
        bytes_of(upper_text(bytes)) == Some(bytes),
{
    let text = upper_text(bytes);
    assert forall|i: int| 0 <= i < text.len() implies is_digit(#[trigger] text[i]) by {}
    assert forall|i: int| 0 <= i < bytes.len() implies (16 * digit_value(text[2 * i])
        + digit_value(text[2 * i + 1])) as u8 == #[trigger] bytes[i] by {
        assert((2 * i) / 2 == i && (2 * i) % 2 == 0);
        assert((2 * i + 1) / 2 == i && (2 * i + 1) % 2 == 1);
    }
    assert(bytes_of(text)->Some_0 =~= bytes);
}

/// The digits are the sixteen of either alphabet and nothing else.
pub proof fn digits_are_those_of_the_alphabets(c: char)
    ensures
        is_digit(c) <==> "0123456789ABCDEFabcdef"@.contains(c),
{
    let all = "0123456789ABCDEFabcdef"@;
    reveal_strlit("0123456789ABCDEFabcdef");
    if '0' <= c <= '9' {
        assert(all[c as int - '0' as int] == c);
    } else if 'A' <= c <= 'F' {
        assert(all[c as int - 'A' as int + 10] == c);
    } else if 'a' <= c <= 'f' {
        assert(all[c as int - 'a' as int + 16] == c);
    }
}

proof fn lemma_alphabets(c: char, v: int)
    requires
        0 <= v < 16,
    ensures
        "0123456789ABCDEF"@[v] == upper_digit(v),
        is_digit(c) && digit_value(c) == v <==> c == "0123456789ABCDEF"@[v] || c
            == "0123456789abcdef"@[v],
        is_digit(c) ==> 0 <= digit_value(c) < 16,
{
    reveal_strlit("0123456789ABCDEF");
    reveal_strlit("0123456789abcdef");
}

/// A text writes bytes exactly where it has two characters for each of them, the
/// high half of the byte first, and each is the digit of its half in the
/// upper-case or the lower-case alphabet.
pub proof fn text_is_read_digit_by_digit(text: Seq<char>, bytes: Seq<u8>)
    ensures
        bytes_of(text) == Some(bytes) <==> text.len() == 2 * bytes.len() && forall|i: int|
            0 <= i < bytes.len() ==> {
                let high = (#[trigger] bytes[i]) as int / 16;
                let low = bytes[i] as int % 16;
                &&& text[2 * i] == "0123456789ABCDEF"@[high] || text[2 * i]
                    == "0123456789abcdef"@[high]
                &&& text[2 * i + 1] == "0123456789ABCDEF"@[low] || text[2 * i + 1]
                    == "0123456789abcdef"@[low]
            },
{
    if bytes_of(text) == Some(bytes) {
        assert forall|i: int| 0 <= i < bytes.len() implies {
            let high = (#[trigger] bytes[i]) as int / 16;
            let low = bytes[i] as int % 16;
            &&& text[2 * i] == "0123456789ABCDEF"@[high] || text[2 * i]
                == "0123456789abcdef"@[high]
            &&& text[2 * i + 1] == "0123456789ABCDEF"@[low] || text[2 * i + 1]
                == "0123456789abcdef"@[low]
        } by {
            assert(is_digit(text[2 * i]) && is_digit(text[2 * i + 1]));
            lemma_alphabets(text[2 * i], 0);
            lemma_alphabets(text[2 * i + 1], 0);
            lemma_alphabets(text[2 * i], bytes[i] as int / 16);
            lemma_alphabets(text[2 * i + 1], bytes[i] as int % 16);
        }
    }
    if text.len() == 2 * bytes.len() && forall|i: int|
        0 <= i < bytes.len() ==> {
            let high = (#[trigger] bytes[i]) as int / 16;
            let low = bytes[i] as int % 16;
            &&& text[2 * i] == "0123456789ABCDEF"@[high] || text[2 * i]
                == "0123456789abcdef"@[high]
            &&& text[2 * i + 1] == "0123456789ABCDEF"@[low] || text[2 * i + 1]
                == "0123456789abcdef"@[low]
        } {
        assert forall|j: int| 0 <= j < text.len() implies is_digit(#[trigger] text[j]) by {
            let i = j / 2;
            let byte = bytes[i];
            lemma_alphabets(text[2 * i], byte as int / 16);
            lemma_alphabets(text[2 * i + 1], byte as int % 16);
            assert(j == 2 * i || j == 2 * i + 1);
        }
        assert forall|i: int| 0 <= i < bytes.len() implies (16 * digit_value(text[2 * i])
            + digit_value(text[2 * i + 1])) as u8 == #[trigger] bytes[i] by {
            lemma_alphabets(text[2 * i], bytes[i] as int / 16);
            lemma_alphabets(text[2 * i + 1], bytes[i] as int % 16);
        }
        assert(bytes_of(text)->Some_0 =~= bytes);
    }
}

/// The upper-case text of bytes has two characters for each of them: the digits
/// of its high and its low half in the upper-case alphabet.
pub proof fn upper_text_is_written_digit_by_digit(bytes: Seq<u8>, i: int)
    requires
        0 <= i < bytes.len(),
    ensures
        upper_text(bytes).len() == 2 * bytes.len(),
        upper_text(bytes)[2 * i] == "0123456789ABCDEF"@[bytes[i] as int / 16],
        upper_text(bytes)[2 * i + 1] == "0123456789ABCDEF"@[bytes[i] as int % 16],
{
    assert((2 * i) / 2 == i && (2 * i) % 2 == 0);
    assert((2 * i + 1) / 2 == i && (2 * i + 1) % 2 == 1);
    lemma_alphabets('0', bytes[i] as int / 16);
    lemma_alphabets('0', bytes[i] as int % 16);
}

} // verus!
