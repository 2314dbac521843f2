use color_mixer::{default_quantity, default_shade, AddColorRequest, ColorMixer, ColorMixerError};

#[test]
fn empty_mixer_has_no_colors_to_mix() {
    let mixer = ColorMixer::new();
    assert_eq!(mixer.get_mixed_color().unwrap_err(), ColorMixerError::NoColors);
}

#[test]
fn single_color_is_returned_unchanged() {
    let mut mixer = ColorMixer::new();
    mixer.add_colors_str("blue", "dark", 1).unwrap();
    assert_eq!(mixer.get_mixed_color().unwrap().rgb(), (0, 32, 91));

    let mut mixer = ColorMixer::new();
    mixer.add_colors_str("yellow", "light", 1).unwrap();
    assert_eq!(mixer.get_mixed_color().unwrap().rgb(), (255, 249, 128));
}

#[test]
fn yellow_family_mix_is_the_family_average() {
    let mut mixer = ColorMixer::new();
    mixer.add_colors_str("yellow", "standard", 1).unwrap();
    mixer.add_colors_str("yellow", "light", 1).unwrap();
    // ((255+255)/2, (237+249)/2, (0+128)/2)
    assert_eq!(mixer.get_mixed_color().unwrap().rgb(), (255, 243, 64));

    mixer.add_colors_str("yellow", "dark", 1).unwrap();
    // ((255+255+204)/3, (237+249+187)/3, (0+128+0)/3), truncated
    assert_eq!(mixer.get_mixed_color().unwrap().rgb(), (238, 224, 42));
}

#[test]
fn blue_family_mix_is_the_family_average() {
    let mut mixer = ColorMixer::new();
    mixer.add_colors_str("blue", "standard", 1).unwrap();
    mixer.add_colors_str("blue", "dark", 1).unwrap();
    // ((0+0)/2, (71+32)/2, (171+91)/2), truncated
    assert_eq!(mixer.get_mixed_color().unwrap().rgb(), (0, 51, 131));
}

#[test]
fn balanced_standard_mix_is_the_documented_blend() {
    for n in [1u32, 2, 3, 10, 500] {
        let mut mixer = ColorMixer::new();
        mixer.add_colors_str("yellow", "standard", n).unwrap();
        mixer.add_colors_str("blue", "standard", n).unwrap();
        let mixed = mixer.get_mixed_color().unwrap();
        assert_eq!(mixed.rgb(), (127, 154, 85));
        assert_eq!(mixed.to_hex(), "#7F9A55");
    }
}

#[test]
fn mixing_twice_gives_identical_output() {
    let mut mixer = ColorMixer::new();
    mixer.add_colors_str("yellow", "standard", 2).unwrap();
    mixer.add_colors_str("blue", "light", 3).unwrap();
    let first = mixer.get_mixed_color().unwrap();
    let second = mixer.get_mixed_color().unwrap();
    assert_eq!(first, second);
}

#[test]
fn capacity_boundary_is_exact_and_failure_changes_nothing() {
    let mut mixer = ColorMixer::new();
    mixer.add_colors_str("yellow", "standard", 999).unwrap();
    mixer.add_colors_str("blue", "standard", 1).unwrap();
    let full_mix = mixer.get_mixed_color().unwrap();
    // ((255*999+0)/1000, (237*999+71)/1000, (0+171)/1000), truncated
    assert_eq!(full_mix.rgb(), (254, 236, 0));

    assert_eq!(
        mixer.add_colors_str("blue", "standard", 1).unwrap_err(),
        ColorMixerError::MaxColorsReached
    );
    assert_eq!(mixer.get_mixed_color().unwrap(), full_mix);
}

#[test]
fn oversized_add_fails_whole_and_exact_fit_succeeds() {
    let mut mixer = ColorMixer::new();
    assert_eq!(
        mixer.add_colors_str("yellow", "standard", 1001).unwrap_err(),
        ColorMixerError::MaxColorsReached
    );
    assert_eq!(mixer.get_mixed_color().unwrap_err(), ColorMixerError::NoColors);
    mixer.add_colors_str("yellow", "standard", 1000).unwrap();
    assert_eq!(mixer.get_mixed_color().unwrap().rgb(), (255, 237, 0));
}

#[test]
fn clear_then_mix_fails_with_no_colors() {
    let mut mixer = ColorMixer::new();
    mixer.add_colors_str("yellow", "standard", 5).unwrap();
    mixer.add_colors_str("blue", "standard", 5).unwrap();
    mixer.clear();
    assert_eq!(mixer.get_mixed_color().unwrap_err(), ColorMixerError::NoColors);
}

#[test]
fn adding_zero_units_changes_nothing() {
    let mut mixer = ColorMixer::new();
    mixer.add_colors_str("yellow", "standard", 0).unwrap();
    assert_eq!(mixer.get_mixed_color().unwrap_err(), ColorMixerError::NoColors);
}

#[test]
fn unsupported_color_fails_before_any_mutation() {
    let mut mixer = ColorMixer::new();
    match mixer.add_colors_str("green", "standard", 3) {
        Err(ColorMixerError::UnsupportedColor(msg)) => {
            assert_eq!(
                msg,
                "Unsupported color: green. Please use one of the predefined yellow or blue shades."
            );
        }
        other => panic!("expected UnsupportedColor, got {:?}", other),
    }
    match mixer.add_colors_str("blue", "pale", 3) {
        Err(ColorMixerError::UnsupportedColor(msg)) => {
            assert_eq!(
                msg,
                "Unsupported color: pale-blue. Please use one of the predefined yellow or blue shades."
            );
        }
        other => panic!("expected UnsupportedColor, got {:?}", other),
    }
    assert_eq!(mixer.get_mixed_color().unwrap_err(), ColorMixerError::NoColors);
}

#[test]
fn shade_composes_with_the_color_name() {
    let mut mixer = ColorMixer::new();
    mixer.add_colors_str("yellow", "light", 2).unwrap();
    assert_eq!(mixer.get_mixed_color().unwrap().rgb(), (255, 249, 128));
}

#[test]
fn cloned_mixer_mixes_the_same() {
    let mut mixer = ColorMixer::new();
    mixer.add_colors_str("yellow", "dark", 4).unwrap();
    mixer.add_colors_str("blue", "light", 2).unwrap();
    let copy = mixer.clone();
    assert_eq!(copy.get_mixed_color(), mixer.get_mixed_color());
}

#[test]
fn request_defaults_match_the_api() {
    assert_eq!(default_quantity(), 1);
    assert_eq!(default_shade(), "standard");
    let request = AddColorRequest {
        color: "yellow".to_string(),
        shade: default_shade(),
        quantity: default_quantity(),
    };
    let mut mixer = ColorMixer::new();
    mixer
        .add_colors_str(&request.color, &request.shade, request.quantity)
        .unwrap();
    assert_eq!(mixer.get_mixed_color().unwrap().rgb(), (255, 237, 0));
}
