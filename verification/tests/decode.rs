use macroquest::eq::{Channel, GameState};

#[test]
fn test_game_state_decodes_known_codes() {
    assert_eq!(GameState::from(-1), GameState::PreCharacterSelect);
    assert_eq!(GameState::from(1), GameState::CharacterSelect);
    assert_eq!(GameState::from(2), GameState::CharacterCreate);
    assert_eq!(GameState::from(3), GameState::PostCharacterSelect);
    assert_eq!(GameState::from(5), GameState::InGame);
    assert_eq!(GameState::from(253), GameState::LoggingIn);
    assert_eq!(GameState::from(255), GameState::Unloading);
}

#[test]
fn test_game_state_unknown_round_trips() {
    for code in [-2147483648, -2, 0, 4, 6, 42, 254, 256, 2147483647] {
        assert_eq!(GameState::from(code), GameState::Unknown(code));
        assert_eq!(i32::from(GameState::Unknown(code)), code);
    }
    for code in [-1, 1, 2, 3, 5, 253, 255] {
        assert_eq!(i32::from(GameState::from(code)), code);
    }
}

#[test]
fn test_channel_decodes_known_codes() {
    assert_eq!(Channel::from(256), Channel::Say);
    assert_eq!(Channel::from(257), Channel::Tell);
    assert_eq!(Channel::from(273), Channel::Default);
    assert_eq!(Channel::from(389), Channel::RaidVictory);
    assert_eq!(Channel::from(397), Channel::DirectDamageYours);
    assert_eq!(Channel::from(405), Channel::MeleeOthersCrit);
}

#[test]
fn test_channel_unknown_round_trips() {
    // 272 and 390..=396 are gaps inside the named range; the rest lie
    // outside it.
    for code in [-2147483648, -1, 0, 255, 272, 390, 394, 396, 406, 2147483647] {
        assert_eq!(Channel::from(code), Channel::Unknown(code));
        assert_eq!(i32::from(Channel::Unknown(code)), code);
    }
    for code in 256..=405 {
        assert_eq!(i32::from(Channel::from(code)), code);
    }
}

#[test]
fn test_channel_default_is_default_text() {
    assert_eq!(Channel::default(), Channel::Default);
    assert_eq!(i32::from(Channel::default()), 273);
}
