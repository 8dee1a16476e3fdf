use std::str::FromStr;

use uuid::Uuid;
use uuid_param::UuidParseError;
use uuid_param::UUID;

const HYPHEN_PLACES: [usize; 4] = [8, 13, 18, 23];

fn is_hyphenated(chars: &[char]) -> bool {
    chars.len() == 36
        && chars.iter().enumerate().all(|(i, c)| {
            if HYPHEN_PLACES.contains(&i) {
                *c == '-'
            } else {
                c.is_ascii_hexdigit()
            }
        })
}

fn is_simple(chars: &[char]) -> bool {
    chars.len() == 32 && chars.iter().all(|c| c.is_ascii_hexdigit())
}

fn is_urn(chars: &[char]) -> bool {
    let prefix: Vec<char> = "urn:uuid:".chars().collect();
    chars.len() == 45 && chars[..9] == prefix[..] && is_hyphenated(&chars[9..])
}

fn denotes_a_uuid(text: &str) -> bool {
    let chars: Vec<char> = text.chars().collect();
    is_simple(&chars) || is_hyphenated(&chars)
}

fn is_in_the_urn_form(text: &str) -> bool {
    let chars: Vec<char> = text.chars().collect();
    is_urn(&chars)
}

fn spelled_octets(text: &str) -> Vec<u8> {
    let digits: Vec<u8> = text
        .chars()
        .filter(|c| *c != '-')
        .map(|c| c.to_digit(16).unwrap() as u8)
        .collect();
    let mut octets = Vec::new();
    let mut k = 0;
    while k < 16 {
        octets.push(16 * digits[2 * k] + digits[2 * k + 1]);
        k += 1;
    }
    octets
}

fn written_out(octets: &[u8]) -> String {
    let digits: Vec<char> = "0123456789abcdef".chars().collect();
    let mut text = String::new();
    for (k, octet) in octets.iter().enumerate() {
        if k == 4 || k == 6 || k == 8 || k == 10 {
            text.push('-');
        }
        text.push(digits[(octet / 16) as usize]);
        text.push(digits[(octet % 16) as usize]);
    }
    text
}

fn holds_of(text: &str) {
    let parsed = UUID::from_str(text);
    assert_eq!(parsed.is_ok(), denotes_a_uuid(text), "from_str on {:?}", text);
    assert_eq!(parsed, UUID::from_param(text), "from_param on {:?}", text);
    let direct = Uuid::parse_str(text);
    match parsed {
        Ok(id) => {
            let octets = spelled_octets(text);
            assert_eq!(&id.as_bytes()[..], &octets[..], "octets of {:?}", text);
            assert_eq!(id.to_string(), written_out(&octets), "text of {:?}", text);
            assert_eq!(id, direct.unwrap());
            assert_eq!(UUID::from_form_value(text), Ok(id));
            assert_eq!(UUID::from_str(&id.to_string()), Ok(id));
        }
        Err(e) => {
            if is_in_the_urn_form(text) {
                assert!(direct.is_ok());
                assert_eq!(e, UuidParseError::InvalidLength(45));
            } else {
                assert_eq!(Err(e), direct);
            }
            if text.len() != 32 && text.len() != 36 && text.len() != 45 {
                assert_eq!(e, UuidParseError::InvalidLength(text.len()));
            }
            assert_eq!(UUID::from_form_value(text), Err(text));
        }
    }
}

fn bases() -> Vec<&'static str> {
    vec![
        "c1aa1e3b-9614-4895-9ebd-705255fa5bc2",
        "C1AA1E3B-9614-4895-9EBD-705255FA5BC2",
        "936DA01F9ABD4d9d80C702AF85C822A8",
        "urn:uuid:F9168C5E-CEB2-4faa-B6BF-329BF39FA1E4",
        "00000000-0000-0000-0000-000000000000",
        "ffffffffffffffffffffffffffffffff",
    ]
}

fn marks() -> Vec<char> {
    vec![
        '0', '9', 'a', 'f', 'A', 'F', 'g', 'G', '-', ' ', 'z', ':', '{', '}', '/', '@', '`', '\u{e9}',
        '\u{ff10}', 'u', 'U',
    ]
}

#[test]
fn the_accepted_texts_are_the_simple_and_the_hyphenated_form() {
    for text in bases() {
        assert_eq!(denotes_a_uuid(text), !text.starts_with("urn:uuid:"));
        holds_of(text);
    }
}

#[test]
fn one_character_changed() {
    for base in bases() {
        let chars: Vec<char> = base.chars().collect();
        for i in 0..chars.len() {
            for mark in marks() {
                let mut changed = chars.clone();
                changed[i] = mark;
                let text: String = changed.into_iter().collect();
                holds_of(&text);
            }
        }
    }
}

#[test]
fn one_character_left_out() {
    for base in bases() {
        let chars: Vec<char> = base.chars().collect();
        for i in 0..chars.len() {
            let mut shorter = chars.clone();
            shorter.remove(i);
            let text: String = shorter.into_iter().collect();
            holds_of(&text);
        }
    }
}

#[test]
fn one_character_put_in() {
    for base in bases() {
        let chars: Vec<char> = base.chars().collect();
        for i in 0..chars.len() + 1 {
            for mark in marks() {
                let mut longer = chars.clone();
                longer.insert(i, mark);
                let text: String = longer.into_iter().collect();
                holds_of(&text);
            }
        }
    }
}

#[test]
fn hyphens_moved_or_left_out() {
    let digits = "c1aa1e3b961448959ebd705255fa5bc2";
    for first in 0..33 {
        for second in first..33 {
            let mut text = String::new();
            text.push_str(&digits[..first]);
            text.push('-');
            text.push_str(&digits[first..second]);
            text.push('-');
            text.push_str(&digits[second..]);
            holds_of(&text);
            let mut four = String::new();
            four.push_str(&digits[..first]);
            four.push('-');
            four.push_str(&digits[first..second]);
            four.push_str("-4895-9ebd-");
            four.push_str(&digits[second..]);
            holds_of(&four);
        }
    }
    for places in vec![
        vec![8, 12, 16, 20],
        vec![8, 12, 16],
        vec![8, 12],
        vec![8],
        vec![12, 16, 20],
        vec![8, 12, 16, 20, 32],
        vec![0, 8, 12, 16, 20],
        vec![4, 8, 12, 16, 20],
    ] {
        for tail in vec!["", "0", "00", "000", "0000", "00000"] {
            let mut text = String::new();
            for (d, c) in digits.chars().enumerate() {
                if places.contains(&d) {
                    text.push('-');
                }
                text.push(c);
            }
            if places.contains(&32) {
                text.push('-');
            }
            text.push_str(tail);
            holds_of(&text);
            let urn = format!("urn:uuid:{}", text);
            holds_of(&urn);
        }
    }
}

#[test]
fn every_octet_is_written_as_two_lower_case_digits() {
    for value in 0..256u32 {
        let octet = value as u8;
        let mut simple = String::new();
        for k in 0..16u32 {
            let each = if k % 2 == 0 { octet } else { octet.wrapping_add(k as u8) };
            simple.push_str(&format!("{:02X}", each));
        }
        holds_of(&simple);
        let id = UUID::from_str(&simple).unwrap();
        assert_eq!(id.as_bytes()[0], octet);
        assert_eq!(id.as_bytes()[15], octet.wrapping_add(15));
        let text = id.to_string();
        assert_eq!(&text[0..2], format!("{:02x}", octet));
        assert_eq!(text, text.to_ascii_lowercase());
        holds_of(&text);
    }
}

#[test]
fn the_order_is_that_of_the_octets() {
    let texts = vec![
        "00000000-0000-0000-0000-000000000000",
        "00000000-0000-0000-0000-0000000000ff",
        "00000000-0000-0000-0000-00000000ff00",
        "00000000-0000-0080-0000-000000000000",
        "0000007f-ffff-ffff-ffff-ffffffffffff",
        "00000080-0000-0000-0000-000000000000",
        "7fffffff-ffff-ffff-ffff-ffffffffffff",
        "80000000-0000-0000-0000-000000000000",
        "80000000-0000-0000-0000-000000000001",
        "ff000000-0000-0000-0000-000000000000",
        "ffffffff-ffff-ffff-ffff-ffffffffffff",
    ];
    for a in &texts {
        for b in &texts {
            let id_a = UUID::from_str(a).unwrap();
            let id_b = UUID::from_str(b).unwrap();
            let expected = spelled_octets(a).cmp(&spelled_octets(b));
            assert_eq!(id_a.partial_cmp(&id_b), Some(expected));
            assert_eq!(id_a.cmp(&id_b), expected);
            assert_eq!(id_a == id_b, spelled_octets(a) == spelled_octets(b));
            assert_eq!(id_a == id_b.into_inner(), spelled_octets(a) == spelled_octets(b));
        }
    }
}
