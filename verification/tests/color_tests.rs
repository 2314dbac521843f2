use color_mixer::{Color, ColorMixerError};

#[test]
fn from_folded_resolves_every_spelling() {
    let cases: [(&str, (u8, u8, u8)); 12] = [
        ("yellow", (255, 237, 0)),
        ("#ffed00", (255, 237, 0)),
        ("light-yellow", (255, 249, 128)),
        ("#fff980", (255, 249, 128)),
        ("dark-yellow", (204, 187, 0)),
        ("#ccbb00", (204, 187, 0)),
        ("blue", (0, 71, 171)),
        ("#0047ab", (0, 71, 171)),
        ("light-blue", (102, 153, 255)),
        ("#6699ff", (102, 153, 255)),
        ("dark-blue", (0, 32, 91)),
        ("#00205b", (0, 32, 91)),
    ];
    for (spelling, rgb) in cases {
        let c = Color::from_folded(spelling).expect(spelling);
        assert_eq!(c.rgb(), rgb);
    }
}

#[test]
fn name_and_hex_spellings_agree() {
    let pairs = [
        ("yellow", "#ffed00"),
        ("light-yellow", "#fff980"),
        ("dark-yellow", "#ccbb00"),
        ("blue", "#0047ab"),
        ("light-blue", "#6699ff"),
        ("dark-blue", "#00205b"),
    ];
    for (name, hex) in pairs {
        assert_eq!(Color::from_folded(name), Color::from_folded(hex));
        assert_eq!(
            Color::from_str(name).unwrap(),
            Color::from_str(hex).unwrap()
        );
    }
}

#[test]
fn from_str_is_case_insensitive() {
    assert_eq!(Color::from_str("YELLOW").unwrap().rgb(), (255, 237, 0));
    assert_eq!(Color::from_str("Yellow").unwrap().rgb(), (255, 237, 0));
    assert_eq!(Color::from_str("#FFED00").unwrap().rgb(), (255, 237, 0));
    assert_eq!(Color::from_str("LIGHT-YELLOW").unwrap().rgb(), (255, 249, 128));
    assert_eq!(Color::from_str("Dark-Blue").unwrap().rgb(), (0, 32, 91));
    assert_eq!(Color::from_str("#0047AB").unwrap().rgb(), (0, 71, 171));
    assert_eq!(Color::from_str("bLuE").unwrap().rgb(), (0, 71, 171));
}

#[test]
fn from_str_rejects_unknown_spellings() {
    for bad in ["green", "", "#123456", "yellowish", "light yellow", "#ffed0"] {
        match Color::from_str(bad) {
            Err(ColorMixerError::UnsupportedColor(msg)) => {
                assert_eq!(
                    msg,
                    format!(
                        "Unsupported color: {}. Please use one of the predefined yellow or blue shades.",
                        bad
                    )
                );
            }
            other => panic!("expected UnsupportedColor for {:?}, got {:?}", bad, other),
        }
    }
}

#[test]
fn to_hex_formats_uppercase_and_padded() {
    assert_eq!(Color::new(255, 237, 0).to_hex(), "#FFED00");
    assert_eq!(Color::new(0, 71, 171).to_hex(), "#0047AB");
    assert_eq!(Color::new(0, 32, 91).to_hex(), "#00205B");
    assert_eq!(Color::new(1, 2, 11).to_hex(), "#01020B");
    assert_eq!(Color::new(0, 0, 0).to_hex(), "#000000");
    assert_eq!(Color::new(255, 255, 255).to_hex(), "#FFFFFF");
}

#[test]
fn rgb_returns_the_channels() {
    let c = Color::new(12, 34, 56);
    assert_eq!(c.rgb(), (12, 34, 56));
}

#[test]
fn family_predicates_match_exact_shades() {
    assert!(Color::new(255, 237, 0).is_yellow());
    assert!(!Color::new(255, 237, 1).is_yellow());
    assert!(Color::new(0, 71, 171).is_blue());
    assert!(!Color::new(0, 71, 170).is_blue());
    assert!(Color::new(255, 249, 128).is_light_yellow());
    assert!(Color::new(204, 187, 0).is_dark_yellow());
    assert!(Color::new(102, 153, 255).is_light_blue());
    assert!(Color::new(0, 32, 91).is_dark_blue());
    assert!(!Color::new(102, 153, 255).is_dark_blue());
}
