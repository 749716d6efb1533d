//! Actions whose code depends on a mode word. A word that is not one of the
//! known modes selects the default of its action; it is never an error.

use vstd::prelude::*;
use vstd::string::*;
use crate::templates::{
    change_x, change_x_text, change_y, change_y_text, change_z, change_z_text, effect_damage,
    effect_damage_text, effect_heal, effect_heal_text, effect_pull, effect_pull_text, effect_push,
    effect_push_text, launch_backward, launch_backward_text, launch_forward, launch_forward_text,
    launch_up, launch_up_text, set_x, set_x_text, set_y, set_y_text, set_z, set_z_text,
};
use crate::text::{decimal, decimal_string, text_is};

verus! {

/// The statement that sets the weather: rain for `rain`, a thunderstorm for
/// `thunder`, clear skies for anything else.
pub open spec fn weather_statement_text(weather: Seq<char>) -> Seq<char> {
    if weather == "rain"@ {
        "world.setWeather(0, 6000, true, false);"@
    } else if weather == "thunder"@ {
        "world.setWeather(0, 6000, true, true);"@
    } else {
        "world.setWeather(0, 0, false, false);"@
    }
}

/// The indented statement that sets the weather.
pub open spec fn world_weather_text(pad: Seq<char>, weather: Seq<char>) -> Seq<char> {
    pad + weather_statement_text(weather)
}

/// Emits the statement that sets the weather.
pub fn world_weather(pad: &str, weather: &str) -> (text: String)
    ensures
        text@ == world_weather_text(pad@, weather@),
{
    let mut text = String::from_str(pad);
    if text_is(weather, "rain") {
        text.append("world.setWeather(0, 6000, true, false);");
    } else if text_is(weather, "thunder") {
        text.append("world.setWeather(0, 6000, true, true);");
    } else {
        text.append("world.setWeather(0, 0, false, false);");
    }
    text
}

/// The signed height of a vertical teleport: negative for `DOWN`, positive
/// for `UP` and for anything else.
pub open spec fn vertical_offset_text(direction: Seq<char>, distance: int) -> Seq<char> {
    if direction == "DOWN"@ {
        "-"@ + decimal(distance)
    } else {
        decimal(distance)
    }
}

/// Writes the signed height of a vertical teleport.
pub fn vertical_offset(direction: &str, distance: i32) -> (text: String)
    ensures
        text@ == vertical_offset_text(direction@, distance as int),
{
    if text_is(direction, "DOWN") {
        let mut text = String::from_str("-");
        let number = decimal_string(distance);
        text.append(number.as_str());
        text
    } else {
        decimal_string(distance)
    }
}

/// The velocity statements of a launch: along the view for `forward`,
/// against it for `backward`, straight up for `up` and for anything else.
/// Every line after the first begins with the indentation `pad`.
pub open spec fn launch_velocity_text(pad: Seq<char>, direction: Seq<char>, power: Seq<char>) -> Seq<char> {
    if direction == "forward"@ {
        launch_forward_text(pad, power)
    } else if direction == "backward"@ {
        launch_backward_text(pad, power)
    } else {
        launch_up_text(power)
    }
}

/// Emits the velocity statements of a launch.
pub fn launch_velocity(pad: &str, direction: &str, power: &str) -> (text: String)
    ensures
        text@ == launch_velocity_text(pad@, direction@, power@),
{
    if text_is(direction, "forward") {
        launch_forward(pad, power)
    } else if text_is(direction, "backward") {
        launch_backward(pad, power)
    } else {
        launch_up(power)
    }
}

/// The statement that sets one coordinate of the player: `y` or `z` where
/// the axis says so, `x` for anything else.
pub open spec fn set_position_text(axis: Seq<char>, value: Seq<char>) -> Seq<char> {
    if axis == "y"@ {
        set_y_text(value)
    } else if axis == "z"@ {
        set_z_text(value)
    } else {
        set_x_text(value)
    }
}

/// Emits the statement that sets one coordinate of the player.
pub fn set_position(axis: &str, value: &str) -> (text: String)
    ensures
        text@ == set_position_text(axis@, value@),
{
    if text_is(axis, "y") {
        set_y(value)
    } else if text_is(axis, "z") {
        set_z(value)
    } else {
        set_x(value)
    }
}

/// The statement that changes one coordinate of the player: `y` or `z`
/// where the axis says so, `x` for anything else.
pub open spec fn change_position_text(axis: Seq<char>, value: Seq<char>) -> Seq<char> {
    if axis == "y"@ {
        change_y_text(value)
    } else if axis == "z"@ {
        change_z_text(value)
    } else {
        change_x_text(value)
    }
}

/// Emits the statement that changes one coordinate of the player.
pub fn change_position(axis: &str, value: &str) -> (text: String)
    ensures
        text@ == change_position_text(axis@, value@),
{
    if text_is(axis, "y") {
        change_y(value)
    } else if text_is(axis, "z") {
        change_z(value)
    } else {
        change_x(value)
    }
}

/// What an area effect does to one entity: pull, damage, heal, ignite or
/// freeze where the kind says so, push for `push` and for anything else.
pub open spec fn effect_code_text(effect_type: Seq<char>, power: Seq<char>) -> Seq<char> {
    if effect_type == "pull"@ {
        effect_pull_text(power)
    } else if effect_type == "damage"@ {
        effect_damage_text(power)
    } else if effect_type == "heal"@ {
        effect_heal_text(power)
    } else if effect_type == "ignite"@ {
        "e.setOnFireFor(5);"@
    } else if effect_type == "freeze"@ {
        "e.setFrozenTicks(200);"@
    } else {
        effect_push_text(power)
    }
}

/// Emits the per-entity code of an area effect.
pub fn effect_code(effect_type: &str, power: &str) -> (text: String)
    ensures
        text@ == effect_code_text(effect_type@, power@),
{
    if text_is(effect_type, "pull") {
        effect_pull(power)
    } else if text_is(effect_type, "damage") {
        effect_damage(power)
    } else if text_is(effect_type, "heal") {
        effect_heal(power)
    } else if text_is(effect_type, "ignite") {
        String::from_str("e.setOnFireFor(5);")
    } else if text_is(effect_type, "freeze") {
        String::from_str("e.setFrozenTicks(200);")
    } else {
        effect_push(power)
    }
}

} // verus!
