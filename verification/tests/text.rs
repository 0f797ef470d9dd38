use rustisflying::number::decimal_chars;
use rustisflying::text::{char_is_whitespace, split_fields, Delimiter};

#[test]
fn whitespace_matches_std_for_every_char() {
    for u in 0u32..=0x10FFFF {
        if let Some(c) = char::from_u32(u) {
            assert_eq!(char_is_whitespace(c), c.is_whitespace(), "U+{u:04X}");
        }
    }
}

#[test]
fn decimal_matches_to_string() {
    for n in [0i64, 7, -7, 10, 999, -1000, 1234567, i64::MAX, i64::MIN] {
        let s: String = decimal_chars(n).into_iter().collect();
        assert_eq!(s, n.to_string());
    }
}

#[test]
fn fields_laid_end_to_end_give_back_the_kept_characters() {
    for (text, d) in [
        ("  Athens \t Intl\u{3000}Airport  ", Delimiter::Whitespace),
        ("--LGAV--EGLL-", Delimiter::Dash),
        ("", Delimiter::Dash),
        ("   ", Delimiter::Whitespace),
    ] {
        let chars: Vec<char> = text.chars().collect();
        let fields = split_fields(&chars, d);
        let expected: Vec<Vec<char>> = match d {
            Delimiter::Whitespace => text.split_whitespace().map(|w| w.chars().collect()).collect(),
            Delimiter::Dash => text
                .split('-')
                .filter(|w| !w.is_empty())
                .map(|w| w.chars().collect())
                .collect(),
        };
        assert_eq!(fields, expected);
        let joined: Vec<char> = fields.concat();
        let kept: Vec<char> = chars
            .iter()
            .copied()
            .filter(|c| match d {
                Delimiter::Whitespace => !c.is_whitespace(),
                Delimiter::Dash => *c != '-',
            })
            .collect();
        assert_eq!(joined, kept);
    }
}
