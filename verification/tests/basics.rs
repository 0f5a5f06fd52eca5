//! Scalar arithmetic, the skill table, dice, and identifiers.

use pandt::dice::Dice;
use pandt::error::GameError;
use pandt::ids::{AbilityID, CreatureID};
use pandt::skills::{challenge_table, SkillLevel};
use pandt::types::{Distance, Energy, HP};

#[test]
fn hp_saturates_at_zero() {
    assert_eq!(HP(5).saturating_sub(HP(10)), HP(0));
}

#[test]
fn hp_saturates_at_ceiling() {
    assert_eq!(HP(250).saturating_add(HP(10)), HP(255));
}

#[test]
fn hp_plain_arithmetic() {
    assert_eq!(HP(5).saturating_add(HP(10)), HP(15));
    assert_eq!(HP(10).saturating_sub(HP(5)), HP(5));
}

#[test]
fn energy_saturates() {
    assert_eq!(Energy(250).saturating_add(Energy(10)), Energy(255));
    assert_eq!(Energy(5).saturating_sub(Energy(10)), Energy(0));
}

#[test]
fn distance_saturates() {
    assert_eq!(Distance(u32::MAX - 5).saturating_add(Distance(10)), Distance(u32::MAX));
    assert_eq!(Distance(5).saturating_sub(Distance(10)), Distance(0));
}

#[test]
fn skill_ordinals() {
    assert_eq!(SkillLevel::Inept.to_ord(), -1);
    assert_eq!(SkillLevel::Unskilled.to_ord(), 0);
    assert_eq!(SkillLevel::Skilled.to_ord(), 1);
    assert_eq!(SkillLevel::Expert.to_ord(), 2);
    assert_eq!(SkillLevel::Supernatural.to_ord(), 3);
}

#[test]
fn challenge_equal_levels_is_75() {
    assert_eq!(SkillLevel::Skilled.challenge(SkillLevel::Skilled), 75);
    assert_eq!(SkillLevel::Inept.challenge(SkillLevel::Inept), 75);
}

#[test]
fn challenge_table_is_total_in_range() {
    let expected: [(i8, u8); 9] = [
        (-4, 100),
        (-3, 99),
        (-2, 95),
        (-1, 85),
        (0, 75),
        (1, 50),
        (2, 10),
        (3, 1),
        (4, 0),
    ];
    for (diff, pct) in expected.iter() {
        assert_eq!(challenge_table(*diff).unwrap(), *pct);
    }
}

#[test]
fn challenge_table_rejects_out_of_range() {
    assert!(matches!(challenge_table(5), Err(GameError::BuggyProgram(_))));
    assert!(matches!(challenge_table(-5), Err(GameError::BuggyProgram(_))));
}

#[test]
fn challenge_extremes() {
    // A supernatural actor facing an inept-difficulty task.
    assert_eq!(SkillLevel::Supernatural.challenge(SkillLevel::Inept), 100);
    // An inept actor facing a supernatural-difficulty task.
    assert_eq!(SkillLevel::Inept.challenge(SkillLevel::Supernatural), 0);
}

#[test]
fn degenerate_die_always_rolls_one() {
    let (faces, sum) = Dice { num: 1, size: 1 }.roll();
    assert_eq!(faces, vec![1]);
    assert_eq!(sum, 1);
}

#[test]
fn flat_dice_are_deterministic() {
    let (faces, sum) = Dice::flat(3).roll();
    assert_eq!(faces, vec![1, 1, 1]);
    assert_eq!(sum, 3);
}

#[test]
fn dice_rolls_stay_on_the_faces() {
    for _ in 0..20 {
        let (faces, sum) = Dice { num: 4, size: 6 }.roll();
        assert_eq!(faces.len(), 4);
        let mut total: u32 = 0;
        for f in faces.iter() {
            assert!(1 <= *f && *f <= 6);
            total += *f as u32;
        }
        assert_eq!(total, sum);
    }
}

#[test]
fn ability_id_bounds() {
    let ok = "a".repeat(64);
    let too_long = "a".repeat(65);
    assert!(AbilityID::new(&ok).is_ok());
    assert!(matches!(AbilityID::new(&too_long), Err(GameError::IDTooLong(_))));
    assert_eq!(AbilityID::new("punch").unwrap().to_string(), "punch");
}

#[test]
fn ability_id_bound_counts_bytes() {
    // A two-byte character: 32 of them fill the 64-byte bound exactly,
    // while 33 stay within 64 characters but overflow the byte bound.
    let at_bound = "é".repeat(32);
    let over = "é".repeat(33);
    assert_eq!(at_bound.len(), 64);
    assert_eq!(over.chars().count(), 33);
    assert!(AbilityID::new(&at_bound).is_ok());
    assert!(matches!(AbilityID::new(&over), Err(GameError::IDTooLong(_))));
}

#[test]
fn creature_id_parses_and_formats() {
    // The formatter normalizes to lowercase hyphenated text, so a parsed
    // uppercase id does not come back unchanged.
    let id = CreatureID::from_str("00000000-0000-0000-0000-00000000000A").unwrap();
    assert_eq!(id.to_string(), "00000000-0000-0000-0000-00000000000a");
    assert!(matches!(
        CreatureID::from_str("not-a-uuid"),
        Err(GameError::CreatureNotFound(_))
    ));
}

#[test]
fn creature_ids_are_stable_through_text() {
    let id = CreatureID::from_str("00000000-0000-0000-0000-000000000002").unwrap();
    let again = CreatureID::from_str(&id.to_string()).unwrap();
    assert_eq!(id, again);
}
