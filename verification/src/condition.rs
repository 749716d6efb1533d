//! Renders a condition as a Java boolean expression.

use vstd::prelude::*;
use vstd::string::*;
use crate::model::Condition;

verus! {

/// The guard that always holds; it stands in for a missing condition.
pub open spec fn always_true() -> Seq<char> {
    "true"@
}

/// The Java expression of a condition. A negation wraps the expression of
/// its operand in `!(` and `)`; a negation without operand negates the guard
/// that always holds.
pub open spec fn condition_expr_text(c: Condition) -> Seq<char>
    decreases c,
{
    match c {
        Condition::SensingIsSneaking {  } => "player.isSneaking()"@,
        Condition::SensingIsInWater {  } => "player.isSubmergedInWater()"@,
        Condition::SensingIsOnFire {  } => "player.isOnFire()"@,
        Condition::SensingIsOnGround {  } => "player.isOnGround()"@,
        Condition::SensingIsSprinting {  } => "player.isSprinting()"@,
        Condition::SensingIsFlying {  } => "player.getAbilities().flying"@,
        Condition::SensingGetHealth {  } => "player.getHealth() > 10.0f"@,
        Condition::SensingGetHunger {  } => "player.getHungerManager().getFoodLevel() > 10"@,
        Condition::LogicNot { condition } => match condition {
            Some(inner) => "!("@ + condition_expr_text(*inner) + ")"@,
            None => "!("@ + always_true() + ")"@,
        },
    }
}

/// The Java expression of an optional condition: without a condition, the
/// guard that always holds.
pub open spec fn condition_text(condition: Option<Condition>) -> Seq<char> {
    match condition {
        None => always_true(),
        Some(c) => condition_expr_text(c),
    }
}

/// Renders a condition as a Java expression.
pub fn condition_expr(c: &Condition) -> (text: String)
    ensures
        text@ == condition_expr_text(*c),
    decreases c,
{
    match c {
        Condition::SensingIsSneaking {  } => String::from_str("player.isSneaking()"),
        Condition::SensingIsInWater {  } => String::from_str("player.isSubmergedInWater()"),
        Condition::SensingIsOnFire {  } => String::from_str("player.isOnFire()"),
        Condition::SensingIsOnGround {  } => String::from_str("player.isOnGround()"),
        Condition::SensingIsSprinting {  } => String::from_str("player.isSprinting()"),
        Condition::SensingIsFlying {  } => String::from_str("player.getAbilities().flying"),
        Condition::SensingGetHealth {  } => String::from_str("player.getHealth() > 10.0f"),
        Condition::SensingGetHunger {  } => String::from_str(
            "player.getHungerManager().getFoodLevel() > 10",
        ),
        Condition::LogicNot { condition } => {
            let mut text = String::from_str("!(");
            match condition {
                Some(inner) => {
                    let operand = condition_expr(inner);
                    text.append(operand.as_str());
                },
                None => {
                    text.append("true");
                },
            }
            text.append(")");
            text
        },
    }
}

/// Renders an optional condition as a Java expression; `None` renders as
/// `true`.
pub fn generate_condition_java(condition: &Option<Condition>) -> (text: String)
    ensures
        text@ == condition_text(*condition),
{
    match condition {
        None => String::from_str("true"),
        Some(c) => condition_expr(c),
    }
}

} // verus!
