use glyph_rain::palette::{
    colors, random_color, select_color, select_index, total_weight, Color, Weight,
};

const CODES: [u8; 8] = [0, 18, 29, 39, 128, 199, 206, 255];

#[test]
fn palette_is_seven_accents_and_one_primary() {
    let palette = colors();
    assert_eq!(palette.len(), 8);
    for (i, entry) in palette.iter().enumerate() {
        assert_eq!(entry.color(), Color::AnsiValue(CODES[i]));
        if i < 7 {
            assert_eq!(*entry, Weight::Accent(Color::AnsiValue(CODES[i]), 10));
            assert_eq!(entry.weight(), 10);
        } else {
            assert_eq!(*entry, Weight::Primary(Color::AnsiValue(255), 30));
            assert_eq!(entry.weight(), 30);
        }
    }
}

#[test]
fn palette_weights_sum_to_one_hundred() {
    assert_eq!(total_weight(&colors()), 100);
}

#[test]
fn total_weight_of_other_palettes() {
    assert_eq!(total_weight(&[]), 0);
    assert_eq!(total_weight(&[Weight::Primary(Color::White, 255)]), 255);
    let mixed = [
        Weight::Accent(Color::AnsiValue(1), 0),
        Weight::Primary(Color::AnsiValue(2), 3),
        Weight::Accent(Color::AnsiValue(3), 4),
    ];
    assert_eq!(total_weight(&mixed), 7);
}

#[test]
fn every_draw_lands_on_its_entry() {
    let palette = colors();
    for choice in 0..100u8 {
        let entry = if choice < 70 { (choice / 10) as usize } else { 7 };
        assert_eq!(select_index(&palette, choice), Some(entry), "draw {}", choice);
        assert_eq!(
            select_color(&palette, choice),
            Color::AnsiValue(CODES[entry]),
            "draw {}",
            choice
        );
    }
}

#[test]
fn shares_are_the_weights() {
    let palette = colors();
    let mut shares = [0u32; 8];
    for choice in 0..100u8 {
        shares[select_index(&palette, choice).unwrap()] += 1;
    }
    assert_eq!(shares, [10, 10, 10, 10, 10, 10, 10, 30]);
}

#[test]
fn first_and_last_draw_of_each_entry() {
    let palette = colors();
    assert_eq!(select_color(&palette, 0), Color::AnsiValue(0));
    assert_eq!(select_color(&palette, 9), Color::AnsiValue(0));
    assert_eq!(select_color(&palette, 10), Color::AnsiValue(18));
    assert_eq!(select_color(&palette, 69), Color::AnsiValue(206));
    assert_eq!(select_color(&palette, 70), Color::AnsiValue(255));
    assert_eq!(select_color(&palette, 99), Color::AnsiValue(255));
}

#[test]
fn draws_beyond_the_total_fall_back_to_white() {
    let palette = colors();
    for choice in 100..=255u8 {
        assert_eq!(select_index(&palette, choice), None);
        assert_eq!(select_color(&palette, choice), Color::White);
    }
    assert_eq!(select_index(&[], 0), None);
    assert_eq!(select_color(&[], 0), Color::White);
}

#[test]
fn entries_of_weight_zero_are_never_drawn() {
    let palette = [
        Weight::Accent(Color::AnsiValue(1), 0),
        Weight::Primary(Color::AnsiValue(2), 3),
        Weight::Accent(Color::AnsiValue(3), 0),
        Weight::Accent(Color::AnsiValue(4), 2),
    ];
    let drawn: Vec<Option<usize>> = (0..6u8).map(|c| select_index(&palette, c)).collect();
    assert_eq!(drawn, vec![Some(1), Some(1), Some(1), Some(3), Some(3), None]);
    assert_eq!(select_color(&palette, 2), Color::AnsiValue(2));
    assert_eq!(select_color(&palette, 3), Color::AnsiValue(4));
    assert_eq!(select_color(&palette, 5), Color::White);
}

#[test]
fn random_color_is_a_palette_color() {
    for _ in 0..2000 {
        let color = random_color();
        assert_ne!(color, Color::White);
        assert!(
            colors().iter().any(|entry| entry.color() == color),
            "{:?} is not in the palette",
            color
        );
    }
}

#[test]
fn random_color_reaches_past_the_first_entry() {
    let first = colors()[0].color();
    assert!((0..2000).any(|_| random_color() != first));
}

#[test]
fn primary_takes_about_three_draws_in_ten() {
    let draws = 20000;
    let mut primary = 0;
    let mut first_accent = 0;
    for _ in 0..draws {
        match random_color() {
            Color::AnsiValue(255) => primary += 1,
            Color::AnsiValue(0) => first_accent += 1,
            _ => {}
        }
    }
    let primary_share = primary as f64 / draws as f64;
    let accent_share = first_accent as f64 / draws as f64;
    assert!((primary_share - 0.30).abs() < 0.05, "primary share {}", primary_share);
    assert!((accent_share - 0.10).abs() < 0.05, "accent share {}", accent_share);
}
