//! Game-facing data types: the game-state codes and chat-channel color
//! codes that the host hands to hook exports, and read-only views of the
//! host's spawn and ground-item records.
//!
//! Both code enums decode totally: every 32-bit code maps to a variant, with
//! unrecognized codes collapsing into a catch-all variant that carries the
//! raw value, so that decoding can never fail when the host introduces codes
//! this crate does not know yet.

use vstd::prelude::*;

use crate::{EQGroundItem, PlayerClient};

verus! {

/// The game-client states the host reports through the game-state hook.
///
/// The numeric codes are the host's own ABI values. Codes this crate does
/// not recognize decode to [`GameState::Unknown`] carrying the raw code.
#[allow(missing_docs)]
#[derive(Copy, Clone, Debug, PartialEq, Eq, Structural)]
pub enum GameState {
    PreCharacterSelect,
    CharacterSelect,
    CharacterCreate,
    PostCharacterSelect,
    InGame,
    LoggingIn,
    Unloading,
    /// Catch-all for a state code this crate does not recognize; carries the
    /// raw code unchanged.
    Unknown(i32),
}

/// The host's numeric code for each game state.
pub open spec fn spec_game_state_code(state: GameState) -> i32 {
    match state {
        GameState::PreCharacterSelect => -1i32,
        GameState::CharacterSelect => 1i32,
        GameState::CharacterCreate => 2i32,
        GameState::PostCharacterSelect => 3i32,
        GameState::InGame => 5i32,
        GameState::LoggingIn => 253i32,
        GameState::Unloading => 255i32,
        GameState::Unknown(code) => code,
    }
}

/// Total decoding of a host game-state code: named variant where the code is
/// known, otherwise the catch-all carrying the raw code.
pub open spec fn spec_game_state_from_code(code: i32) -> GameState {
    if code == -1 {
        GameState::PreCharacterSelect
    } else if code == 1 {
        GameState::CharacterSelect
    } else if code == 2 {
        GameState::CharacterCreate
    } else if code == 3 {
        GameState::PostCharacterSelect
    } else if code == 5 {
        GameState::InGame
    } else if code == 253 {
        GameState::LoggingIn
    } else if code == 255 {
        GameState::Unloading
    } else {
        GameState::Unknown(code)
    }
}

impl From<i32> for GameState {
    fn from(code: i32) -> (state: GameState) {
        match code {
            -1 => GameState::PreCharacterSelect,
            1 => GameState::CharacterSelect,
            2 => GameState::CharacterCreate,
            3 => GameState::PostCharacterSelect,
            5 => GameState::InGame,
            253 => GameState::LoggingIn,
            255 => GameState::Unloading,
            _ => GameState::Unknown(code),
        }
    }
}

impl vstd::std_specs::convert::FromSpecImpl<i32> for GameState {
    open spec fn obeys_from_spec() -> bool {
        true
    }

    open spec fn from_spec(code: i32) -> GameState {
        spec_game_state_from_code(code)
    }
}

impl From<GameState> for i32 {
    fn from(state: GameState) -> (code: i32) {
        match state {
            GameState::PreCharacterSelect => -1i32,
            GameState::CharacterSelect => 1i32,
            GameState::CharacterCreate => 2i32,
            GameState::PostCharacterSelect => 3i32,
            GameState::InGame => 5i32,
            GameState::LoggingIn => 253i32,
            GameState::Unloading => 255i32,
            GameState::Unknown(code) => code,
        }
    }
}

impl vstd::std_specs::convert::FromSpecImpl<GameState> for i32 {
    open spec fn obeys_from_spec() -> bool {
        true
    }

    open spec fn from_spec(state: GameState) -> i32 {
        spec_game_state_code(state)
    }
}

/// Decoding a game-state code never fails and re-encoding the decoded value
/// yields the original code unchanged, for every 32-bit code: unrecognized
/// codes ride through the catch-all variant untouched.
pub proof fn lemma_game_state_round_trip(code: i32)
    ensures
        spec_game_state_code(spec_game_state_from_code(code)) == code,
{
}

/// Represents the various types of chat "channels".
///
/// Messages in the game get emitted to a specific channel; some of these are
/// channels that players can talk on (like say, or group), others are
/// channels that only the game itself can send messages on (like skills).
///
/// The host calls these the "color" of the chat message, because they control
/// which filter the message applies under (and thus what color it gets
/// printed with). The numeric codes are the host's own ABI values; codes this
/// crate does not recognize decode to [`Channel::Unknown`] carrying the raw
/// code.
#[derive(Copy, Clone, Debug, PartialEq, Eq, Structural)]
pub enum Channel {
    /// Say
    Say,
    /// Tell
    Tell,
    /// Group
    Group,
    /// Guild
    Guild,
    /// Out Of Character (OOC)
    OOC,
    /// Auction
    Auction,
    /// Shout
    Shout,
    /// Emotes
    Emote,
    /// Spells - Memming, scribing, casting, etc
    Spells,
    /// You Hit others
    YouHitOther,
    /// Other hits you
    OtherHitsYou,
    /// You miss other
    YouMissOther,
    /// Other misses you
    OtherMissYou,
    /// Broadcasts (duels, etc)
    Duels,
    /// Skills - Skill ups, non-combat use, etc
    Skills,
    /// Disciplines or special abilities
    Disciplines,
    /// Default text and stuff you type
    Default,
    /// Faction Messages
    Faction,
    /// Merchant Offer Price
    MerchantOffer,
    /// Merchant Buy/Sell
    MerchantExchange,
    /// Your death message
    YourDeath,
    /// Others death message
    OtherDeath,
    /// Other damage other
    OtherHitOther,
    /// Other miss other
    OtherMissOther,
    /// /who command
    Who,
    /// Yell for help
    Yell,
    /// Spell Damage
    SpellDamage,
    /// Spell worn off
    SpellWornOff,
    /// Money splits
    MoneySplit,
    /// Loot message
    Loot,
    /// Dice Roll (/random)
    Random,
    /// Others spells
    OthersSpells,
    /// Spell Failures - Resists, fizzles, missing component, bad target, etc
    SpellFailure,
    /// Chat Channel Messages
    ChatChannel,
    /// Chat Channel 1
    ChatChannel1,
    /// Chat Channel 2
    ChatChannel2,
    /// Chat Channel 3
    ChatChannel3,
    /// Chat Channel 4
    ChatChannel4,
    /// Chat Channel 5
    ChatChannel5,
    /// Chat Channel 6
    ChatChannel6,
    /// Chat Channel 7
    ChatChannel7,
    /// Chat Channel 8
    ChatChannel8,
    /// Chat Channel 9
    ChatChannel9,
    /// Chat Channel 10
    ChatChannel10,
    /// Melee Crits (Yours)
    MeleeCrit,
    /// Direct Damage Crits (Yours)
    SpellCrit,
    /// Too far away (Melee)
    TooFarAway,
    /// NPC Rampage
    NPCRampage,
    /// NPC Flurry
    NPCFlurry,
    /// NPC Enrage
    NPCEnrage,
    /// Say Echo
    EchoSay,
    /// Tell Echo
    EchoTell,
    /// Group Echo
    EchoGroup,
    /// Guild Echo
    EchoGuild,
    /// OOC Echo
    EchoOOC,
    /// Auction Echo
    EchoAuction,
    /// Shout Echo
    EchoShout,
    /// Emote Echo
    EchoEmote,
    /// Chat Channel 1 Echo
    EchoChatChannel1,
    /// Chat Channel 2 Echo
    EchoChatChannel2,
    /// Chat Channel 3 Echo
    EchoChatChannel3,
    /// Chat Channel 4 Echo
    EchoChatChannel4,
    /// Chat Channel 5 Echo
    EchoChatChannel5,
    /// Chat Channel 6 Echo
    EchoChatChannel6,
    /// Chat Channel 7 Echo
    EchoChatChannel7,
    /// Chat Channel 8 Echo
    EchoChatChannel8,
    /// Chat Channel 9 Echo
    EchoChatChannel9,
    /// Chat Channel 10 Echo
    EchoChatChannel10,
    /// Avatar Command Output
    AvatarCommand,
    /// Item Links
    Link,
    /// Raid Say
    Raid,
    /// Pet Melee (Yours)
    Pet,
    /// Damage Shield hits you
    DamageShield,
    /// Group / Raid Role messages
    Leader,
    /// Pet rampage/flurry
    PetRampageFlurry,
    /// Pet's critical hits
    PetCrit,
    /// Focus item activation
    Focus,
    /// XP Gain/Loss
    Experience,
    /// System Broadcasts
    System,
    /// Pet spells
    PetSpells,
    /// Pet responses
    PetResponses,
    /// Item Speech
    ItemSpeech,
    /// Strikethrough Messages
    Strikethrough,
    /// Stun Messages
    Stun,
    /// Swarm Pet Death
    SwarmPetDeath,
    /// Fellowship Messages
    Fellowship,
    /// NPC Dialogue
    NPCSpeech,
    /// NPC Dialogue to You
    NPCSpeechToYou,
    /// Guild Messages
    GuildMessage,
    /// Mercenary to Group Messages
    MercenaryGroup,
    /// Achievement Links
    Achievement,
    /// Achievement (Yours)
    AchievementYou,
    /// Achievement (Others)
    AchievementOthers,
    /// PvP Messages
    PvP,
    /// Hotbutton Cooldown Overlay
    HotButtonCooldown,
    /// Aggro Labels - Low
    AggroLow,
    /// Aggro Labels - Warning
    AggroWarning,
    /// Aggro Labels - Most
    AggroMost,
    /// Dialog [Response] Links
    DialogLink,
    /// Flurry (Yours)
    YouFlurry,
    /// Debug Output
    Debug,
    /// Death Notification - NPCs
    NPCDeath,
    /// Dice Roll (/random) - Others
    RandomOther,
    /// Dice Roll (/random) - Group / Raid
    RandomGroup,
    /// Environmental Damage (Yours)
    YouFallDamage,
    /// Environmental Damage (Others)
    OtherFallDamage,
    /// Damage Shield (Yours)
    YouDamageSield,
    /// Damage Shield (Other)
    OtherDamageShield,
    /// Event Messages
    Event,
    /// Spell Overwritten (Detrimental)
    DetrimentalSpellOverwritten,
    /// Spell Overwritten (Beneficial)
    BeneficialSpellOverwritten,
    /// Can't Use Command Warning
    CantUseCommand,
    /// Combat Ability Reuse - You can use [Ability Name] again in [time until]
    AbilityCooldown,
    /// Alt Ability Reuse
    AltAbilityCooldown,
    /// Destroy Item Message
    DestroyItem,
    /// Auras (You)
    AurasYours,
    /// Aura (Others)
    AurasOthers,
    /// Heals (You)
    HealsYours,
    /// Heals (Others)
    HealsOthers,
    /// DoT (Yours)
    DoTsYours,
    /// DoT (Others)
    DoTsOthers,
    /// Bard Songs on Pets
    PetBardSongs,
    /// Direct Damage (Others)
    DirectDamageOthers,
    /// Spell Emotes
    SpellEmotes,
    /// Faction Links
    FactionLink,
    /// Taunt Messages
    Taunt,
    /// Combat Abilities / Disciplines (Others)
    DisciplinesOthers,
    /// Item Stat Positive
    ItemStatPositive,
    /// Item Stat Negative
    ItemStatNegative,
    /// Encounter Lock Attackable
    EncounterLockAttackable,
    /// Encounter Lock Unattackable
    EncounterLockUnattackable,
    /// Food And Drink
    FoodAndDrink,
    /// Raid Victory
    RaidVictory,
    /// Direct Damage (Yours)
    DirectDamageYours,
    /// Direct Damage (Other Critical Hits)
    DirectDamageOthersCrit,
    /// DoTs (Your Critical Hits)
    DoTsYoursCrit,
    /// DoTs (Other Critical Hits)
    DoTsOthersCrit,
    /// DoTs (You Being Hit)
    DoTsDamageTaken,
    /// Heals Received
    HealsReceived,
    /// Heals (Your Critical Heals)
    HealsYoursCrit,
    /// Heals (Other Critical Heals)
    HealsOthersCrit,
    /// Others Hits (Critical)
    MeleeOthersCrit,
    /// Catch-all for a channel code this crate does not recognize; carries
    /// the raw code unchanged.
    Unknown(i32),
}

/// The host's numeric code for each chat channel.
pub open spec fn spec_channel_code(channel: Channel) -> i32 {
    match channel {
        Channel::Say => 256i32,
        Channel::Tell => 257i32,
        Channel::Group => 258i32,
        Channel::Guild => 259i32,
        Channel::OOC => 260i32,
        Channel::Auction => 261i32,
        Channel::Shout => 262i32,
        Channel::Emote => 263i32,
        Channel::Spells => 264i32,
        Channel::YouHitOther => 265i32,
        Channel::OtherHitsYou => 266i32,
        Channel::YouMissOther => 267i32,
        Channel::OtherMissYou => 268i32,
        Channel::Duels => 269i32,
        Channel::Skills => 270i32,
        Channel::Disciplines => 271i32,
        Channel::Default => 273i32,
        Channel::Faction => 274i32,
        Channel::MerchantOffer => 275i32,
        Channel::MerchantExchange => 276i32,
        Channel::YourDeath => 277i32,
        Channel::OtherDeath => 278i32,
        Channel::OtherHitOther => 279i32,
        Channel::OtherMissOther => 280i32,
        Channel::Who => 281i32,
        Channel::Yell => 282i32,
        Channel::SpellDamage => 283i32,
        Channel::SpellWornOff => 284i32,
        Channel::MoneySplit => 285i32,
        Channel::Loot => 286i32,
        Channel::Random => 287i32,
        Channel::OthersSpells => 288i32,
        Channel::SpellFailure => 289i32,
        Channel::ChatChannel => 290i32,
        Channel::ChatChannel1 => 291i32,
        Channel::ChatChannel2 => 292i32,
        Channel::ChatChannel3 => 293i32,
        Channel::ChatChannel4 => 294i32,
        Channel::ChatChannel5 => 295i32,
        Channel::ChatChannel6 => 296i32,
        Channel::ChatChannel7 => 297i32,
        Channel::ChatChannel8 => 298i32,
        Channel::ChatChannel9 => 299i32,
        Channel::ChatChannel10 => 300i32,
        Channel::MeleeCrit => 301i32,
        Channel::SpellCrit => 302i32,
        Channel::TooFarAway => 303i32,
        Channel::NPCRampage => 304i32,
        Channel::NPCFlurry => 305i32,
        Channel::NPCEnrage => 306i32,
        Channel::EchoSay => 307i32,
        Channel::EchoTell => 308i32,
        Channel::EchoGroup => 309i32,
        Channel::EchoGuild => 310i32,
        Channel::EchoOOC => 311i32,
        Channel::EchoAuction => 312i32,
        Channel::EchoShout => 313i32,
        Channel::EchoEmote => 314i32,
        Channel::EchoChatChannel1 => 315i32,
        Channel::EchoChatChannel2 => 316i32,
        Channel::EchoChatChannel3 => 317i32,
        Channel::EchoChatChannel4 => 318i32,
        Channel::EchoChatChannel5 => 319i32,
        Channel::EchoChatChannel6 => 320i32,
        Channel::EchoChatChannel7 => 321i32,
        Channel::EchoChatChannel8 => 322i32,
        Channel::EchoChatChannel9 => 323i32,
        Channel::EchoChatChannel10 => 324i32,
        Channel::AvatarCommand => 325i32,
        Channel::Link => 326i32,
        Channel::Raid => 327i32,
        Channel::Pet => 328i32,
        Channel::DamageShield => 329i32,
        Channel::Leader => 330i32,
        Channel::PetRampageFlurry => 331i32,
        Channel::PetCrit => 332i32,
        Channel::Focus => 333i32,
        Channel::Experience => 334i32,
        Channel::System => 335i32,
        Channel::PetSpells => 336i32,
        Channel::PetResponses => 337i32,
        Channel::ItemSpeech => 338i32,
        Channel::Strikethrough => 339i32,
        Channel::Stun => 340i32,
        Channel::SwarmPetDeath => 341i32,
        Channel::Fellowship => 342i32,
        Channel::NPCSpeech => 343i32,
        Channel::NPCSpeechToYou => 344i32,
        Channel::GuildMessage => 345i32,
        Channel::MercenaryGroup => 346i32,
        Channel::Achievement => 347i32,
        Channel::AchievementYou => 348i32,
        Channel::AchievementOthers => 349i32,
        Channel::PvP => 350i32,
        Channel::HotButtonCooldown => 351i32,
        Channel::AggroLow => 352i32,
        Channel::AggroWarning => 353i32,
        Channel::AggroMost => 354i32,
        Channel::DialogLink => 355i32,
        Channel::YouFlurry => 356i32,
        Channel::Debug => 357i32,
        Channel::NPCDeath => 358i32,
        Channel::RandomOther => 359i32,
        Channel::RandomGroup => 360i32,
        Channel::YouFallDamage => 361i32,
        Channel::OtherFallDamage => 362i32,
        Channel::YouDamageSield => 363i32,
        Channel::OtherDamageShield => 364i32,
        Channel::Event => 365i32,
        Channel::DetrimentalSpellOverwritten => 366i32,
        Channel::BeneficialSpellOverwritten => 367i32,
        Channel::CantUseCommand => 368i32,
        Channel::AbilityCooldown => 369i32,
        Channel::AltAbilityCooldown => 370i32,
        Channel::DestroyItem => 371i32,
        Channel::AurasYours => 372i32,
        Channel::AurasOthers => 373i32,
        Channel::HealsYours => 374i32,
        Channel::HealsOthers => 375i32,
        Channel::DoTsYours => 376i32,
        Channel::DoTsOthers => 377i32,
        Channel::PetBardSongs => 378i32,
        Channel::DirectDamageOthers => 379i32,
        Channel::SpellEmotes => 380i32,
        Channel::FactionLink => 381i32,
        Channel::Taunt => 382i32,
        Channel::DisciplinesOthers => 383i32,
        Channel::ItemStatPositive => 384i32,
        Channel::ItemStatNegative => 385i32,
        Channel::EncounterLockAttackable => 386i32,
        Channel::EncounterLockUnattackable => 387i32,
        Channel::FoodAndDrink => 388i32,
        Channel::RaidVictory => 389i32,
        Channel::DirectDamageYours => 397i32,
        Channel::DirectDamageOthersCrit => 398i32,
        Channel::DoTsYoursCrit => 399i32,
        Channel::DoTsOthersCrit => 400i32,
        Channel::DoTsDamageTaken => 401i32,
        Channel::HealsReceived => 402i32,
        Channel::HealsYoursCrit => 403i32,
        Channel::HealsOthersCrit => 404i32,
        Channel::MeleeOthersCrit => 405i32,
        Channel::Unknown(code) => code,
    }
}

/// Total decoding of a host channel code: named variant where the code is
/// known, otherwise the catch-all carrying the raw code.
pub open spec fn spec_channel_from_code(code: i32) -> Channel {
    if code == 256 {
        Channel::Say
    } else if code == 257 {
        Channel::Tell
    } else if code == 258 {
        Channel::Group
    } else if code == 259 {
        Channel::Guild
    } else if code == 260 {
        Channel::OOC
    } else if code == 261 {
        Channel::Auction
    } else if code == 262 {
        Channel::Shout
    } else if code == 263 {
        Channel::Emote
    } else if code == 264 {
        Channel::Spells
    } else if code == 265 {
        Channel::YouHitOther
    } else if code == 266 {
        Channel::OtherHitsYou
    } else if code == 267 {
        Channel::YouMissOther
    } else if code == 268 {
        Channel::OtherMissYou
    } else if code == 269 {
        Channel::Duels
    } else if code == 270 {
        Channel::Skills
    } else if code == 271 {
        Channel::Disciplines
    } else if code == 273 {
        Channel::Default
    } else if code == 274 {
        Channel::Faction
    } else if code == 275 {
        Channel::MerchantOffer
    } else if code == 276 {
        Channel::MerchantExchange
    } else if code == 277 {
        Channel::YourDeath
    } else if code == 278 {
        Channel::OtherDeath
    } else if code == 279 {
        Channel::OtherHitOther
    } else if code == 280 {
        Channel::OtherMissOther
    } else if code == 281 {
        Channel::Who
    } else if code == 282 {
        Channel::Yell
    } else if code == 283 {
        Channel::SpellDamage
    } else if code == 284 {
        Channel::SpellWornOff
    } else if code == 285 {
        Channel::MoneySplit
    } else if code == 286 {
        Channel::Loot
    } else if code == 287 {
        Channel::Random
    } else if code == 288 {
        Channel::OthersSpells
    } else if code == 289 {
        Channel::SpellFailure
    } else if code == 290 {
        Channel::ChatChannel
    } else if code == 291 {
        Channel::ChatChannel1
    } else if code == 292 {
        Channel::ChatChannel2
    } else if code == 293 {
        Channel::ChatChannel3
    } else if code == 294 {
        Channel::ChatChannel4
    } else if code == 295 {
        Channel::ChatChannel5
    } else if code == 296 {
        Channel::ChatChannel6
    } else if code == 297 {
        Channel::ChatChannel7
    } else if code == 298 {
        Channel::ChatChannel8
    } else if code == 299 {
        Channel::ChatChannel9
    } else if code == 300 {
        Channel::ChatChannel10
    } else if code == 301 {
        Channel::MeleeCrit
    } else if code == 302 {
        Channel::SpellCrit
    } else if code == 303 {
        Channel::TooFarAway
    } else if code == 304 {
        Channel::NPCRampage
    } else if code == 305 {
        Channel::NPCFlurry
    } else if code == 306 {
        Channel::NPCEnrage
    } else if code == 307 {
        Channel::EchoSay
    } else if code == 308 {
        Channel::EchoTell
    } else if code == 309 {
        Channel::EchoGroup
    } else if code == 310 {
        Channel::EchoGuild
    } else if code == 311 {
        Channel::EchoOOC
    } else if code == 312 {
        Channel::EchoAuction
    } else if code == 313 {
        Channel::EchoShout
    } else if code == 314 {
        Channel::EchoEmote
    } else if code == 315 {
        Channel::EchoChatChannel1
    } else if code == 316 {
        Channel::EchoChatChannel2
    } else if code == 317 {
        Channel::EchoChatChannel3
    } else if code == 318 {
        Channel::EchoChatChannel4
    } else if code == 319 {
        Channel::EchoChatChannel5
    } else if code == 320 {
        Channel::EchoChatChannel6
    } else if code == 321 {
        Channel::EchoChatChannel7
    } else if code == 322 {
        Channel::EchoChatChannel8
    } else if code == 323 {
        Channel::EchoChatChannel9
    } else if code == 324 {
        Channel::EchoChatChannel10
    } else if code == 325 {
        Channel::AvatarCommand
    } else if code == 326 {
        Channel::Link
    } else if code == 327 {
        Channel::Raid
    } else if code == 328 {
        Channel::Pet
    } else if code == 329 {
        Channel::DamageShield
    } else if code == 330 {
        Channel::Leader
    } else if code == 331 {
        Channel::PetRampageFlurry
    } else if code == 332 {
        Channel::PetCrit
    } else if code == 333 {
        Channel::Focus
    } else if code == 334 {
        Channel::Experience
    } else if code == 335 {
        Channel::System
    } else if code == 336 {
        Channel::PetSpells
    } else if code == 337 {
        Channel::PetResponses
    } else if code == 338 {
        Channel::ItemSpeech
    } else if code == 339 {
        Channel::Strikethrough
    } else if code == 340 {
        Channel::Stun
    } else if code == 341 {
        Channel::SwarmPetDeath
    } else if code == 342 {
        Channel::Fellowship
    } else if code == 343 {
        Channel::NPCSpeech
    } else if code == 344 {
        Channel::NPCSpeechToYou
    } else if code == 345 {
        Channel::GuildMessage
    } else if code == 346 {
        Channel::MercenaryGroup
    } else if code == 347 {
        Channel::Achievement
    } else if code == 348 {
        Channel::AchievementYou
    } else if code == 349 {
        Channel::AchievementOthers
    } else if code == 350 {
        Channel::PvP
    } else if code == 351 {
        Channel::HotButtonCooldown
    } else if code == 352 {
        Channel::AggroLow
    } else if code == 353 {
        Channel::AggroWarning
    } else if code == 354 {
        Channel::AggroMost
    } else if code == 355 {
        Channel::DialogLink
    } else if code == 356 {
        Channel::YouFlurry
    } else if code == 357 {
        Channel::Debug
    } else if code == 358 {
        Channel::NPCDeath
    } else if code == 359 {
        Channel::RandomOther
    } else if code == 360 {
        Channel::RandomGroup
    } else if code == 361 {
        Channel::YouFallDamage
    } else if code == 362 {
        Channel::OtherFallDamage
    } else if code == 363 {
        Channel::YouDamageSield
    } else if code == 364 {
        Channel::OtherDamageShield
    } else if code == 365 {
        Channel::Event
    } else if code == 366 {
        Channel::DetrimentalSpellOverwritten
    } else if code == 367 {
        Channel::BeneficialSpellOverwritten
    } else if code == 368 {
        Channel::CantUseCommand
    } else if code == 369 {
        Channel::AbilityCooldown
    } else if code == 370 {
        Channel::AltAbilityCooldown
    } else if code == 371 {
        Channel::DestroyItem
    } else if code == 372 {
        Channel::AurasYours
    } else if code == 373 {
        Channel::AurasOthers
    } else if code == 374 {
        Channel::HealsYours
    } else if code == 375 {
        Channel::HealsOthers
    } else if code == 376 {
        Channel::DoTsYours
    } else if code == 377 {
        Channel::DoTsOthers
    } else if code == 378 {
        Channel::PetBardSongs
    } else if code == 379 {
        Channel::DirectDamageOthers
    } else if code == 380 {
        Channel::SpellEmotes
    } else if code == 381 {
        Channel::FactionLink
    } else if code == 382 {
        Channel::Taunt
    } else if code == 383 {
        Channel::DisciplinesOthers
    } else if code == 384 {
        Channel::ItemStatPositive
    } else if code == 385 {
        Channel::ItemStatNegative
    } else if code == 386 {
        Channel::EncounterLockAttackable
    } else if code == 387 {
        Channel::EncounterLockUnattackable
    } else if code == 388 {
        Channel::FoodAndDrink
    } else if code == 389 {
        Channel::RaidVictory
    } else if code == 397 {
        Channel::DirectDamageYours
    } else if code == 398 {
        Channel::DirectDamageOthersCrit
    } else if code == 399 {
        Channel::DoTsYoursCrit
    } else if code == 400 {
        Channel::DoTsOthersCrit
    } else if code == 401 {
        Channel::DoTsDamageTaken
    } else if code == 402 {
        Channel::HealsReceived
    } else if code == 403 {
        Channel::HealsYoursCrit
    } else if code == 404 {
        Channel::HealsOthersCrit
    } else if code == 405 {
        Channel::MeleeOthersCrit
    } else {
        Channel::Unknown(code)
    }
}

impl From<i32> for Channel {
    fn from(code: i32) -> (channel: Channel) {
        match code {
            256 => Channel::Say,
            257 => Channel::Tell,
            258 => Channel::Group,
            259 => Channel::Guild,
            260 => Channel::OOC,
            261 => Channel::Auction,
            262 => Channel::Shout,
            263 => Channel::Emote,
            264 => Channel::Spells,
            265 => Channel::YouHitOther,
            266 => Channel::OtherHitsYou,
            267 => Channel::YouMissOther,
            268 => Channel::OtherMissYou,
            269 => Channel::Duels,
            270 => Channel::Skills,
            271 => Channel::Disciplines,
            273 => Channel::Default,
            274 => Channel::Faction,
            275 => Channel::MerchantOffer,
            276 => Channel::MerchantExchange,
            277 => Channel::YourDeath,
            278 => Channel::OtherDeath,
            279 => Channel::OtherHitOther,
            280 => Channel::OtherMissOther,
            281 => Channel::Who,
            282 => Channel::Yell,
            283 => Channel::SpellDamage,
            284 => Channel::SpellWornOff,
            285 => Channel::MoneySplit,
            286 => Channel::Loot,
            287 => Channel::Random,
            288 => Channel::OthersSpells,
            289 => Channel::SpellFailure,
            290 => Channel::ChatChannel,
            291 => Channel::ChatChannel1,
            292 => Channel::ChatChannel2,
            293 => Channel::ChatChannel3,
            294 => Channel::ChatChannel4,
            295 => Channel::ChatChannel5,
            296 => Channel::ChatChannel6,
            297 => Channel::ChatChannel7,
            298 => Channel::ChatChannel8,
            299 => Channel::ChatChannel9,
            300 => Channel::ChatChannel10,
            301 => Channel::MeleeCrit,
            302 => Channel::SpellCrit,
            303 => Channel::TooFarAway,
            304 => Channel::NPCRampage,
            305 => Channel::NPCFlurry,
            306 => Channel::NPCEnrage,
            307 => Channel::EchoSay,
            308 => Channel::EchoTell,
            309 => Channel::EchoGroup,
            310 => Channel::EchoGuild,
            311 => Channel::EchoOOC,
            312 => Channel::EchoAuction,
            313 => Channel::EchoShout,
            314 => Channel::EchoEmote,
            315 => Channel::EchoChatChannel1,
            316 => Channel::EchoChatChannel2,
            317 => Channel::EchoChatChannel3,
            318 => Channel::EchoChatChannel4,
            319 => Channel::EchoChatChannel5,
            320 => Channel::EchoChatChannel6,
            321 => Channel::EchoChatChannel7,
            322 => Channel::EchoChatChannel8,
            323 => Channel::EchoChatChannel9,
            324 => Channel::EchoChatChannel10,
            325 => Channel::AvatarCommand,
            326 => Channel::Link,
            327 => Channel::Raid,
            328 => Channel::Pet,
            329 => Channel::DamageShield,
            330 => Channel::Leader,
            331 => Channel::PetRampageFlurry,
            332 => Channel::PetCrit,
            333 => Channel::Focus,
            334 => Channel::Experience,
            335 => Channel::System,
            336 => Channel::PetSpells,
            337 => Channel::PetResponses,
            338 => Channel::ItemSpeech,
            339 => Channel::Strikethrough,
            340 => Channel::Stun,
            341 => Channel::SwarmPetDeath,
            342 => Channel::Fellowship,
            343 => Channel::NPCSpeech,
            344 => Channel::NPCSpeechToYou,
            345 => Channel::GuildMessage,
            346 => Channel::MercenaryGroup,
            347 => Channel::Achievement,
            348 => Channel::AchievementYou,
            349 => Channel::AchievementOthers,
            350 => Channel::PvP,
            351 => Channel::HotButtonCooldown,
            352 => Channel::AggroLow,
            353 => Channel::AggroWarning,
            354 => Channel::AggroMost,
            355 => Channel::DialogLink,
            356 => Channel::YouFlurry,
            357 => Channel::Debug,
            358 => Channel::NPCDeath,
            359 => Channel::RandomOther,
            360 => Channel::RandomGroup,
            361 => Channel::YouFallDamage,
            362 => Channel::OtherFallDamage,
            363 => Channel::YouDamageSield,
            364 => Channel::OtherDamageShield,
            365 => Channel::Event,
            366 => Channel::DetrimentalSpellOverwritten,
            367 => Channel::BeneficialSpellOverwritten,
            368 => Channel::CantUseCommand,
            369 => Channel::AbilityCooldown,
            370 => Channel::AltAbilityCooldown,
            371 => Channel::DestroyItem,
            372 => Channel::AurasYours,
            373 => Channel::AurasOthers,
            374 => Channel::HealsYours,
            375 => Channel::HealsOthers,
            376 => Channel::DoTsYours,
            377 => Channel::DoTsOthers,
            378 => Channel::PetBardSongs,
            379 => Channel::DirectDamageOthers,
            380 => Channel::SpellEmotes,
            381 => Channel::FactionLink,
            382 => Channel::Taunt,
            383 => Channel::DisciplinesOthers,
            384 => Channel::ItemStatPositive,
            385 => Channel::ItemStatNegative,
            386 => Channel::EncounterLockAttackable,
            387 => Channel::EncounterLockUnattackable,
            388 => Channel::FoodAndDrink,
            389 => Channel::RaidVictory,
            397 => Channel::DirectDamageYours,
            398 => Channel::DirectDamageOthersCrit,
            399 => Channel::DoTsYoursCrit,
            400 => Channel::DoTsOthersCrit,
            401 => Channel::DoTsDamageTaken,
            402 => Channel::HealsReceived,
            403 => Channel::HealsYoursCrit,
            404 => Channel::HealsOthersCrit,
            405 => Channel::MeleeOthersCrit,
            _ => Channel::Unknown(code),
        }
    }
}

impl vstd::std_specs::convert::FromSpecImpl<i32> for Channel {
    open spec fn obeys_from_spec() -> bool {
        true
    }

    open spec fn from_spec(code: i32) -> Channel {
        spec_channel_from_code(code)
    }
}

impl From<Channel> for i32 {
    fn from(channel: Channel) -> (code: i32) {
        match channel {
            Channel::Say => 256i32,
            Channel::Tell => 257i32,
            Channel::Group => 258i32,
            Channel::Guild => 259i32,
            Channel::OOC => 260i32,
            Channel::Auction => 261i32,
            Channel::Shout => 262i32,
            Channel::Emote => 263i32,
            Channel::Spells => 264i32,
            Channel::YouHitOther => 265i32,
            Channel::OtherHitsYou => 266i32,
            Channel::YouMissOther => 267i32,
            Channel::OtherMissYou => 268i32,
            Channel::Duels => 269i32,
            Channel::Skills => 270i32,
            Channel::Disciplines => 271i32,
            Channel::Default => 273i32,
            Channel::Faction => 274i32,
            Channel::MerchantOffer => 275i32,
            Channel::MerchantExchange => 276i32,
            Channel::YourDeath => 277i32,
            Channel::OtherDeath => 278i32,
            Channel::OtherHitOther => 279i32,
            Channel::OtherMissOther => 280i32,
            Channel::Who => 281i32,
            Channel::Yell => 282i32,
            Channel::SpellDamage => 283i32,
            Channel::SpellWornOff => 284i32,
            Channel::MoneySplit => 285i32,
            Channel::Loot => 286i32,
            Channel::Random => 287i32,
            Channel::OthersSpells => 288i32,
            Channel::SpellFailure => 289i32,
            Channel::ChatChannel => 290i32,
            Channel::ChatChannel1 => 291i32,
            Channel::ChatChannel2 => 292i32,
            Channel::ChatChannel3 => 293i32,
            Channel::ChatChannel4 => 294i32,
            Channel::ChatChannel5 => 295i32,
            Channel::ChatChannel6 => 296i32,
            Channel::ChatChannel7 => 297i32,
            Channel::ChatChannel8 => 298i32,
            Channel::ChatChannel9 => 299i32,
            Channel::ChatChannel10 => 300i32,
            Channel::MeleeCrit => 301i32,
            Channel::SpellCrit => 302i32,
            Channel::TooFarAway => 303i32,
            Channel::NPCRampage => 304i32,
            Channel::NPCFlurry => 305i32,
            Channel::NPCEnrage => 306i32,
            Channel::EchoSay => 307i32,
            Channel::EchoTell => 308i32,
            Channel::EchoGroup => 309i32,
            Channel::EchoGuild => 310i32,
            Channel::EchoOOC => 311i32,
            Channel::EchoAuction => 312i32,
            Channel::EchoShout => 313i32,
            Channel::EchoEmote => 314i32,
            Channel::EchoChatChannel1 => 315i32,
            Channel::EchoChatChannel2 => 316i32,
            Channel::EchoChatChannel3 => 317i32,
            Channel::EchoChatChannel4 => 318i32,
            Channel::EchoChatChannel5 => 319i32,
            Channel::EchoChatChannel6 => 320i32,
            Channel::EchoChatChannel7 => 321i32,
            Channel::EchoChatChannel8 => 322i32,
            Channel::EchoChatChannel9 => 323i32,
            Channel::EchoChatChannel10 => 324i32,
            Channel::AvatarCommand => 325i32,
            Channel::Link => 326i32,
            Channel::Raid => 327i32,
            Channel::Pet => 328i32,
            Channel::DamageShield => 329i32,
            Channel::Leader => 330i32,
            Channel::PetRampageFlurry => 331i32,
            Channel::PetCrit => 332i32,
            Channel::Focus => 333i32,
            Channel::Experience => 334i32,
            Channel::System => 335i32,
            Channel::PetSpells => 336i32,
            Channel::PetResponses => 337i32,
            Channel::ItemSpeech => 338i32,
            Channel::Strikethrough => 339i32,
            Channel::Stun => 340i32,
            Channel::SwarmPetDeath => 341i32,
            Channel::Fellowship => 342i32,
            Channel::NPCSpeech => 343i32,
            Channel::NPCSpeechToYou => 344i32,
            Channel::GuildMessage => 345i32,
            Channel::MercenaryGroup => 346i32,
            Channel::Achievement => 347i32,
            Channel::AchievementYou => 348i32,
            Channel::AchievementOthers => 349i32,
            Channel::PvP => 350i32,
            Channel::HotButtonCooldown => 351i32,
            Channel::AggroLow => 352i32,
            Channel::AggroWarning => 353i32,
            Channel::AggroMost => 354i32,
            Channel::DialogLink => 355i32,
            Channel::YouFlurry => 356i32,
            Channel::Debug => 357i32,
            Channel::NPCDeath => 358i32,
            Channel::RandomOther => 359i32,
            Channel::RandomGroup => 360i32,
            Channel::YouFallDamage => 361i32,
            Channel::OtherFallDamage => 362i32,
            Channel::YouDamageSield => 363i32,
            Channel::OtherDamageShield => 364i32,
            Channel::Event => 365i32,
            Channel::DetrimentalSpellOverwritten => 366i32,
            Channel::BeneficialSpellOverwritten => 367i32,
            Channel::CantUseCommand => 368i32,
            Channel::AbilityCooldown => 369i32,
            Channel::AltAbilityCooldown => 370i32,
            Channel::DestroyItem => 371i32,
            Channel::AurasYours => 372i32,
            Channel::AurasOthers => 373i32,
            Channel::HealsYours => 374i32,
            Channel::HealsOthers => 375i32,
            Channel::DoTsYours => 376i32,
            Channel::DoTsOthers => 377i32,
            Channel::PetBardSongs => 378i32,
            Channel::DirectDamageOthers => 379i32,
            Channel::SpellEmotes => 380i32,
            Channel::FactionLink => 381i32,
            Channel::Taunt => 382i32,
            Channel::DisciplinesOthers => 383i32,
            Channel::ItemStatPositive => 384i32,
            Channel::ItemStatNegative => 385i32,
            Channel::EncounterLockAttackable => 386i32,
            Channel::EncounterLockUnattackable => 387i32,
            Channel::FoodAndDrink => 388i32,
            Channel::RaidVictory => 389i32,
            Channel::DirectDamageYours => 397i32,
            Channel::DirectDamageOthersCrit => 398i32,
            Channel::DoTsYoursCrit => 399i32,
            Channel::DoTsOthersCrit => 400i32,
            Channel::DoTsDamageTaken => 401i32,
            Channel::HealsReceived => 402i32,
            Channel::HealsYoursCrit => 403i32,
            Channel::HealsOthersCrit => 404i32,
            Channel::MeleeOthersCrit => 405i32,
            Channel::Unknown(code) => code,
        }
    }
}

impl vstd::std_specs::convert::FromSpecImpl<Channel> for i32 {
    open spec fn obeys_from_spec() -> bool {
        true
    }

    open spec fn from_spec(channel: Channel) -> i32 {
        spec_channel_code(channel)
    }
}

impl Default for Channel {
    /// The channel used when a caller does not pick one.
    fn default() -> (channel: Channel)
        ensures
            channel == Channel::Default,
    {
        Channel::Default
    }
}

/// Decoding a channel code never fails and re-encoding the decoded value
/// yields the original code unchanged, for every 32-bit code: unrecognized
/// codes ride through the catch-all variant untouched.
pub proof fn lemma_channel_round_trip(code: i32)
    ensures
        spec_channel_code(spec_channel_from_code(code)) == code,
{
}

/// A read-only view of a live-entity record owned by the host.
///
/// The host lends the underlying record only for the duration of one hook
/// call; the view borrows it and never copies or retains it.
#[derive(Copy, Clone, Debug)]
pub struct Spawn<'a> {
    /// The borrowed host record this view projects.
    pub record: &'a PlayerClient,
}

impl<'a> Spawn<'a> {
    /// Wrap a borrowed host record in a read-only view.
    pub fn new(record: &'a PlayerClient) -> (spawn: Spawn<'a>)
        ensures
            spawn.record == record,
    {
        Spawn { record }
    }

    /// The entity's name, read from the host-owned record.
    pub fn name(&self) -> (name: &str)
        ensures
            name@ == self.record.name@,
    {
        self.record.name()
    }
}

/// A read-only view of a ground-item record owned by the host.
///
/// The host lends the underlying record only for the duration of one hook
/// call; the view borrows it and never copies or retains it.
#[derive(Copy, Clone, Debug)]
pub struct GroundItem<'a> {
    /// The borrowed host record this view projects.
    pub record: &'a EQGroundItem,
}

impl<'a> GroundItem<'a> {
    /// Wrap a borrowed host record in a read-only view.
    pub fn new(record: &'a EQGroundItem) -> (item: GroundItem<'a>)
        ensures
            item.record == record,
    {
        GroundItem { record }
    }

    /// The ground item's name, read from the host-owned record.
    pub fn name(&self) -> (name: &str)
        ensures
            name@ == self.record.name@,
    {
        self.record.name()
    }
}

} // verus!
