use rgf_runtime::identifier::{derive_identifier, IdentifierError};
use rgf_runtime::implementation::ComponentManagerImpl;

/// Whether `pattern` matches the whole of `text`, by the book: `?` stands
/// for one character, `*` for any number of them.
fn matches(pattern: &[char], text: &[char]) -> bool {
    match pattern.split_first() {
        None => text.is_empty(),
        Some((&'*', rest)) => {
            matches(rest, text) || (!text.is_empty() && matches(pattern, &text[1..]))
        }
        Some((&first, rest)) => {
            !text.is_empty() && (first == '?' || first == text[0]) && matches(rest, &text[1..])
        }
    }
}

fn words(alphabet: &[char], longest: usize) -> Vec<String> {
    let mut all = vec![String::new()];
    let mut last = vec![String::new()];
    for _ in 0..longest {
        let mut next = Vec::new();
        for word in &last {
            for letter in alphabet {
                let mut longer = word.clone();
                longer.push(*letter);
                next.push(longer);
            }
        }
        all.extend(next.iter().cloned());
        last = next;
    }
    all
}

#[test]
fn search_agrees_with_the_meaning_of_the_wildcards() {
    let names = words(&['a', 'b'], 4);
    let mut components = ComponentManagerImpl::new();
    for name in &names {
        components.create(name.clone(), vec![], vec![]);
    }
    for pattern in words(&['a', 'b', '*', '?'], 4) {
        let wanted: Vec<char> = pattern.chars().collect();
        let expected: Vec<String> = names
            .iter()
            .filter(|name| matches(&wanted, &name.chars().collect::<Vec<char>>()))
            .cloned()
            .collect();
        let found: Vec<String> =
            components.find(pattern.clone()).into_iter().map(|c| c.name).collect();
        assert_eq!(found, expected, "pattern {:?}", pattern);
    }
}

#[test]
fn wildcards_count_characters_not_bytes() {
    let mut components = ComponentManagerImpl::new();
    for name in ["é", "éé", "e", "日本"] {
        components.create(name.to_string(), vec![], vec![]);
    }
    let found: Vec<String> = components.find("?".to_string()).into_iter().map(|c| c.name).collect();
    assert_eq!(found, vec!["é".to_string(), "e".to_string()]);
    let found: Vec<String> = components.find("??".to_string()).into_iter().map(|c| c.name).collect();
    assert_eq!(found, vec!["éé".to_string(), "日本".to_string()]);
    let found: Vec<String> = components.find("é*".to_string()).into_iter().map(|c| c.name).collect();
    assert_eq!(found, vec!["é".to_string(), "éé".to_string()]);
}

#[test]
fn ascii_characters_of_identifiers_are_letters_digits_dash_and_underscore() {
    for code in 0u8..128 {
        let c = code as char;
        let plain = c.is_ascii_lowercase()
            || c.is_ascii_uppercase()
            || c.is_ascii_digit()
            || c == '-'
            || c == '_';
        let name = c.to_string();
        let expected = if plain { Ok(name.clone()) } else { Err(IdentifierError::InvalidCharacter) };
        assert_eq!(derive_identifier(&name), expected, "character {:?}", c);
    }
}

#[test]
fn characters_beyond_ascii_follow_unicode() {
    assert_eq!(derive_identifier("日本語"), Ok("日本語".to_string()));
    assert_eq!(derive_identifier("٣"), Ok("٣".to_string()));
    assert_eq!(derive_identifier("a→b"), Err(IdentifierError::InvalidCharacter));
    assert_eq!(derive_identifier("\u{a0}"), Err(IdentifierError::InvalidCharacter));
}
