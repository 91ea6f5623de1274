use glyph_rain::glyphs::{random_string, spell, CHAR_SET, MAX_GLYPHS};

/// Whether `text` can be cut into `least` to `most` catalog entries.
fn is_made_of_glyphs(text: &str, least: usize, most: usize) -> bool {
    // reachable[n] holds the byte offsets that n entries can cover
    let mut reachable: Vec<usize> = vec![0];
    for n in 1..=most {
        let mut next: Vec<usize> = Vec::new();
        for &at in &reachable {
            for glyph in CHAR_SET.iter() {
                if text[at..].starts_with(glyph) && !next.contains(&(at + glyph.len())) {
                    next.push(at + glyph.len());
                }
            }
        }
        if n >= least && next.contains(&text.len()) {
            return true;
        }
        reachable = next;
    }
    false
}

#[test]
fn catalog_has_fifteen_entries() {
    assert_eq!(CHAR_SET.len(), 15);
    assert_eq!(MAX_GLYPHS, 16);
    for glyph in CHAR_SET.iter() {
        let chars = glyph.chars().count();
        assert!((1..=9).contains(&chars), "{:?} has {} characters", glyph, chars);
    }
}

#[test]
fn catalog_entries_are_the_decorated_letters() {
    let code_points: Vec<Vec<u32>> =
        CHAR_SET.iter().map(|g| g.chars().map(|c| c as u32).collect()).collect();
    assert_eq!(
        code_points,
        vec![
            vec![0x41, 0x335, 0x326, 0x326, 0x313, 0x34c, 0x357, 0x35b, 0x315],
            vec![0x41],
            vec![0x20b3],
            vec![0x2591, 0x41, 0x2591],
            vec![0x41, 0x489],
            vec![0x23a],
            vec![0x41, 0x337],
            vec![0x41, 0x332],
            vec![0x41, 0x333],
            vec![0x41, 0x33e],
            vec![0x41, 0x34e],
            vec![0x41, 0x353, 0x33d],
            vec![0x1d538],
            vec![0x1d00],
            vec![0x2200],
        ]
    );
}

#[test]
fn spell_writes_the_entries_in_order() {
    assert_eq!(spell(&[]), "");
    assert_eq!(spell(&[1]), "A");
    assert_eq!(spell(&[1, 3]), "A\u{2591}A\u{2591}");
    assert_eq!(spell(&[14, 13, 12]), "\u{2200}\u{1d00}\u{1d538}");
    assert_eq!(spell(&[1, 1, 1, 1]), "AAAA");
    for (i, glyph) in CHAR_SET.iter().enumerate() {
        assert_eq!(spell(&[i]), *glyph);
    }
}

#[test]
fn spell_of_all_entries_is_their_concatenation() {
    let picks: Vec<usize> = (0..15).collect();
    assert_eq!(spell(&picks), CHAR_SET.concat());
}

#[test]
fn random_string_is_one_to_sixteen_glyphs() {
    for _ in 0..5000 {
        let s = random_string();
        assert!(!s.is_empty());
        assert!(s.chars().count() <= 144);
        assert!(is_made_of_glyphs(&s, 1, 16), "{:?} is not made of glyphs", s);
    }
}

#[test]
fn random_string_varies_in_length_and_content() {
    let mut shortest = usize::MAX;
    let mut longest = 0;
    let mut first_glyphs = std::collections::HashSet::new();
    for _ in 0..5000 {
        let s = random_string();
        let chars = s.chars().count();
        shortest = shortest.min(chars);
        longest = longest.max(chars);
        first_glyphs.insert(s.chars().next().unwrap());
    }
    assert_eq!(shortest, 1);
    assert!(longest >= 16, "the longest string had {} characters", longest);
    assert!(first_glyphs.len() >= 5);
}

#[test]
fn helper_tells_glyph_strings_apart() {
    assert!(is_made_of_glyphs("A", 1, 16));
    assert!(is_made_of_glyphs("A\u{337}A", 1, 16));
    assert!(!is_made_of_glyphs("", 1, 16));
    assert!(!is_made_of_glyphs("B", 1, 16));
    assert!(!is_made_of_glyphs("\u{337}", 1, 16));
    assert!(!is_made_of_glyphs("AAAAAAAAAAAAAAAAA", 1, 16));
}
