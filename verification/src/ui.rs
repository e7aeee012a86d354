use crate::game_state::{GameState, Score};
use vstd::prelude::*;

verus! {

/// The character of a decimal digit.
pub open spec fn digit_char(d: nat) -> char {
    (d + 48) as char
}

/// The decimal digits of `n`, most significant first, without leading zeros.
pub open spec fn decimal(n: nat) -> Seq<char>
    decreases n,
{
    if n < 10 {
        seq![digit_char(n)]
    } else {
        decimal(n / 10).push(digit_char(n % 10))
    }
}

/// How `Display` writes an integer: its decimal digits, after a minus sign when it is
/// negative.
pub open spec fn signed_decimal(i: int) -> Seq<char> {
    if i < 0 {
        seq!['-'] + decimal((-i) as nat)
    } else {
        decimal(i as nat)
    }
}

/// `i32::to_string`. Claimed, as std documents for `Display` of integers: the value in
/// decimal, after a minus sign when it is negative.
#[verifier::external_body]
fn i32_decimal(value: i32) -> (r: String)
    ensures
        r@ == signed_decimal(value as int),
{
    value.to_string()
}

/// `u32::to_string`; claimed as for `i32_decimal`.
#[verifier::external_body]
fn u32_decimal(value: u32) -> (r: String)
    ensures
        r@ == signed_decimal(value as int),
{
    value.to_string()
}

/// A HUD line: the label, a colon and a space, then the text of the value.
fn label_line(name: &str, value_text: &String) -> (line: String)
    ensures
        line@ == name@ + ": "@ + value_text@,
{
    let mut line = String::from_str(name);
    line.append(": ");
    line.append(value_text.as_str());
    line
}

/// The hit points shown in the HUD: none once the game is over or when there is no
/// player, and otherwise the player's health, never below zero.
pub open spec fn shown_hp(game_state: GameState, player_health: Option<i32>) -> int {
    match game_state {
        GameState::GameOver => 0,
        GameState::Playing => match player_health {
            Some(h) => if h < 0 { 0 } else { h as int },
            None => 0,
        },
    }
}

/// While playing, the HUD shows the player's health as it is when it is not negative,
/// and zero otherwise; once the game is over, or without a player, it shows zero.
pub proof fn law_shown_hp_is_health(game_state: GameState, h: i32)
    ensures
        h >= 0 ==> shown_hp(GameState::Playing, Some(h)) == h,
        h < 0 ==> shown_hp(GameState::Playing, Some(h)) == 0,
        shown_hp(GameState::Playing, None) == 0,
        shown_hp(GameState::GameOver, Some(h)) == 0,
        shown_hp(game_state, Some(h)) >= 0,
        shown_hp(game_state, Some(h)) <= (if h >= 0 { h as int } else { 0 }),
{
}

pub fn hp_display_value(game_state: GameState, player_health: Option<i32>) -> (v: i32)
    ensures
        v == shown_hp(game_state, player_health),
        v >= 0,
        game_state == GameState::GameOver ==> v == 0,
        player_health is None ==> v == 0,
        forall|h: i32| game_state == GameState::Playing && player_health == Some(h)
            ==> v == (if h >= 0 { h } else { 0 }),
{
    match game_state {
        GameState::GameOver => 0,
        GameState::Playing => match player_health {
            Some(h) => if h < 0 { 0 } else { h },
            None => 0,
        },
    }
}

/// The HUD's health line, such as `HP: 5`.
pub fn hp_label(game_state: GameState, player_health: Option<i32>) -> (label: String)
    ensures
        label@ == "HP"@ + ": "@ + signed_decimal(shown_hp(game_state, player_health)),
{
    let value = hp_display_value(game_state, player_health);
    label_line("HP", &i32_decimal(value))
}

/// The HUD's score line, such as `Score: 12`.
pub fn score_label(score: &Score) -> (label: String)
    ensures
        label@ == "Score"@ + ": "@ + signed_decimal(score.0 as int),
{
    label_line("Score", &u32_decimal(score.0))
}

/// The Game Over overlay is shown exactly while the game is over.
pub fn game_over_overlay_visible(game_state: GameState) -> (visible: bool)
    ensures
        visible == (game_state == GameState::GameOver),
{
    match game_state {
        GameState::GameOver => true,
        GameState::Playing => false,
    }
}

/// The state of the pointer over the restart button.
#[derive(Clone, Copy, Debug, PartialEq, Eq, Structural)]
pub enum ButtonInteraction {
    Pressed,
    Hovered,
    Idle,
}

/// Pressing the restart button requests a restart; hovering over it does not.
pub fn restart_requested(interaction: ButtonInteraction) -> (r: bool)
    ensures
        r == (interaction == ButtonInteraction::Pressed),
{
    match interaction {
        ButtonInteraction::Pressed => true,
        _ => false,
    }
}

} // verus!
