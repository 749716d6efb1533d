//! The emission engine: one rule per kind of action, applied down the tree.

use vstd::prelude::*;
use vstd::string::*;
use crate::condition::{condition_text, generate_condition_java};
use crate::model::{children, Action, BlockDisplayModel, ModData};
use crate::modes::{
    change_position, change_position_text, effect_code, effect_code_text, launch_velocity,
    launch_velocity_text, set_position, set_position_text, vertical_offset, vertical_offset_text,
    world_weather, world_weather_text,
};
use crate::partition::{concat_all, lemma_concat_all_step};
use crate::spawn::{spawn_named_model, spawn_text, BLOCKS_PER_METHOD};
use crate::templates::{
    actionbar, actionbar_text, area_effect, area_effect_text, block_footer, block_footer_text,
    custom_projectile, custom_projectile_text, forever_footer, forever_footer_text, forever_header,
    forever_header_text, give_item, give_item_text, if_header, if_header_text, looks_clear_effects,
    looks_clear_effects_text, looks_display_name, looks_display_name_text, looks_gamemode,
    looks_gamemode_text, looks_subtitle, looks_subtitle_text, motion_launch, motion_launch_text,
    motion_move_forward, motion_move_forward_text, motion_rotate, motion_rotate_text,
    motion_teleport, motion_teleport_forward, motion_teleport_forward_text, motion_teleport_spawn,
    motion_teleport_spawn_text, motion_teleport_text, motion_teleport_vertical,
    motion_teleport_vertical_text, particles, particles_text, play_sound, play_sound_text,
    player_effect, player_effect_text, player_health, player_health_text, repeat_header,
    repeat_header_text, send_message, send_message_text, show_title, show_title_text,
    sound_music_disc, sound_music_disc_text, sound_stop_all, sound_stop_all_text, spawn_mob,
    spawn_mob_text, teleport_look, teleport_look_text, wait, wait_text, world_entity_attack,
    world_entity_attack_text, world_entity_follow, world_entity_follow_text, world_entity_tame,
    world_entity_tame_text, world_explosion, world_explosion_text, world_fill, world_fill_text,
    world_lightning, world_lightning_text, world_place_block, world_place_block_text, world_time,
    world_time_text,
};
use crate::text::{indent_string, indent_text, indent_unit};
use crate::unicode::{lowercase, to_lowercase, to_uppercase, uppercase};

verus! {

/// The Java text of an action at nesting level `level`, with the models that
/// it may spawn and at most `k` blocks per generated method.
///
/// A leaf is the text of its template. A counting loop and a conditional
/// wrap their actions, one level deeper, between a first and a closing line;
/// an endless repetition wraps them two levels deeper in a timer task.
pub open spec fn action_text(action: Action, level: nat, models: Seq<BlockDisplayModel>, k: nat) -> Seq<char>
    decreases action, children(action).len() + 1,
{
    let pad = indent_text(level);
    match action {
        Action::Title { title } => show_title_text(pad, title@),
        Action::SpawnMob { mob } => spawn_mob_text(pad, mob@),
        Action::Repeat { times, actions } => repeat_header_text(pad, times as int) + body_text(
            action,
            actions@.len(),
            level + 1,
            models,
            k,
        ) + block_footer_text(pad),
        Action::RepeatForever { actions } => forever_header_text(pad) + body_text(
            action,
            actions@.len(),
            level + 2,
            models,
            k,
        ) + forever_footer_text(pad),
        Action::Wait { seconds } => wait_text(pad, seconds@),
        Action::IfThen { condition, actions } => if_header_text(pad, condition_text(condition)) + body_text(
            action,
            actions@.len(),
            level + 1,
            models,
            k,
        ) + block_footer_text(pad),
        Action::Message { message } => send_message_text(pad, message@),
        Action::GiveItem { item, amount } => give_item_text(pad, item@, amount as int),
        Action::PlaySound { sound } => play_sound_text(pad, sound@),
        Action::Actionbar { text } => actionbar_text(pad, text@),
        Action::PlayerEffect { effect, duration } => player_effect_text(
            pad,
            effect@,
            lowercase(effect@),
            duration as int,
        ),
        Action::PlayerHealth { health } => player_health_text(pad, health as int),
        Action::WorldPlaceBlock { block } => world_place_block_text(pad, block@),
        Action::WorldTime { time } => world_time_text(pad, time@),
        Action::WorldWeather { weather } => world_weather_text(pad, weather@),
        Action::WorldExplosion { power } => world_explosion_text(pad, power@),
        Action::WorldLightning {  } => world_lightning_text(pad),
        Action::WorldFill { size, block } => world_fill_text(pad, size as int, block@),
        Action::WorldEntityFollow { entity, range, duration } => world_entity_follow_text(
            pad,
            entity@,
            range as int,
            duration as int,
        ),
        Action::WorldEntityAttack { entity, range } => world_entity_attack_text(pad, entity@, range as int),
        Action::WorldEntityTame { entity, range } => world_entity_tame_text(pad, entity@, range as int),
        Action::MotionMoveForward { distance } => motion_move_forward_text(pad, distance@),
        Action::MotionTeleport { x, y, z } => motion_teleport_text(pad, x@, y@, z@),
        Action::MotionTeleportForward { distance } => motion_teleport_forward_text(pad, distance as int),
        Action::MotionTeleportVertical { distance, direction } => motion_teleport_vertical_text(
            pad,
            distance as int,
            lowercase(direction@),
            vertical_offset_text(direction@, distance as int),
        ),
        Action::MotionTeleportSpawn {  } => motion_teleport_spawn_text(pad),
        Action::MotionRotate { direction } => motion_rotate_text(pad, direction@),
        Action::MotionLaunch { power, direction } => motion_launch_text(
            pad,
            launch_velocity_text(pad, direction@, power@),
        ),
        Action::MotionSetX { axis, value } => pad + set_position_text(axis@, value@),
        Action::MotionChangeX { axis, value } => pad + change_position_text(axis@, value@),
        Action::LooksSubtitle { subtitle } => looks_subtitle_text(pad, subtitle@),
        Action::LooksParticles { particle, count } => particles_text(
            pad,
            particle@,
            uppercase(particle@),
            count as int,
        ),
        Action::LooksClearEffects {  } => looks_clear_effects_text(pad),
        Action::LooksDisplayName { name } => looks_display_name_text(pad, name@),
        Action::LooksGamemode { gamemode } => looks_gamemode_text(pad, gamemode@),
        Action::SoundMusicDisc { disc } => sound_music_disc_text(pad, disc@),
        Action::SoundStopAll {  } => sound_stop_all_text(pad),
        Action::CustomActionProjectile { projectile, speed } => custom_projectile_text(
            pad,
            projectile@,
            speed@,
        ),
        Action::CustomActionParticles { particle, count } => particles_text(
            pad,
            particle@,
            uppercase(particle@),
            count as int,
        ),
        Action::CustomActionAreaEffect { effect_type, radius, power } => area_effect_text(
            pad,
            effect_type@,
            radius as int,
            power@,
            effect_code_text(effect_type@, power@),
        ),
        Action::CustomActionTeleportLook { distance } => teleport_look_text(pad, distance as int),
        Action::SpawnBlockDisplayModel { model_id } => spawn_text(pad, models, model_id@, k),
    }
}

/// The text of the first `upto` actions nested under `parent`, each at
/// nesting level `level` and followed by a line break.
pub open spec fn body_text(parent: Action, upto: nat, level: nat, models: Seq<BlockDisplayModel>, k: nat) -> Seq<char>
    decreases parent, upto,
{
    if upto == 0 || upto > children(parent).len() {
        Seq::empty()
    } else {
        body_text(parent, (upto - 1) as nat, level, models, k) + action_text(
            children(parent)[upto - 1],
            level,
            models,
            k,
        ) + "\n"@
    }
}

/// The texts of a list of actions at one nesting level, each followed by
/// `gap`.
pub open spec fn spaced_actions(
    actions: Seq<Action>,
    level: nat,
    models: Seq<BlockDisplayModel>,
    k: nat,
    gap: Seq<char>,
) -> Seq<Seq<char>> {
    Seq::new(actions.len(), |i: int| action_text(actions[i], level, models, k) + gap)
}

/// The body of a block is the texts of the actions nested under it, in
/// order, each followed by a line break.
pub proof fn lemma_body_text(parent: Action, upto: nat, level: nat, models: Seq<BlockDisplayModel>, k: nat)
    requires
        upto <= children(parent).len(),
    ensures
        body_text(parent, upto, level, models, k) == concat_all(
            spaced_actions(children(parent), level, models, k, "\n"@).take(upto as int),
        ),
        upto == children(parent).len() ==> body_text(parent, upto, level, models, k) == concat_all(
            spaced_actions(children(parent), level, models, k, "\n"@),
        ),
    decreases upto,
{
    let list = spaced_actions(children(parent), level, models, k, "\n"@);
    if upto == 0 {
        assert(concat_all(list.take(0)) =~= Seq::<char>::empty());
    } else {
        lemma_body_text(parent, (upto - 1) as nat, level, models, k);
        lemma_concat_all_step(list, upto - 1);
    }
    if upto == children(parent).len() {
        assert(list.take(upto as int) =~= list);
    }
}

/// Emits the actions nested under `parent`, each followed by a line break.
fn emit_body(
    parent: &Action,
    actions: &Vec<Action>,
    pad: &str,
    Ghost(level): Ghost<nat>,
    models: &Vec<BlockDisplayModel>,
    k: usize,
) -> (text: String)
    requires
        actions@ == children(*parent),
        pad@ == indent_text(level),
        k > 0,
    ensures
        text@ == body_text(*parent, actions@.len(), level, models@, k as nat),
    decreases parent, 0nat,
{
    let mut text = String::new();
    let mut i: usize = 0;
    while i < actions.len()
        invariant
            i <= actions.len(),
            actions@ == children(*parent),
            pad@ == indent_text(level),
            k > 0,
            text@ == body_text(*parent, i as nat, level, models@, k as nat),
        decreases actions.len() - i,
    {
        let one = emit(&actions[i], pad, Ghost(level), models, k);
        text.append(one.as_str());
        text.append("\n");
        i += 1;
    }
    text
}

/// Emits `action` behind the leading whitespace `pad` of its nesting level.
fn emit(action: &Action, pad: &str, Ghost(level): Ghost<nat>, models: &Vec<BlockDisplayModel>, k: usize) -> (text: String)
    requires
        pad@ == indent_text(level),
        k > 0,
    ensures
        text@ == action_text(*action, level, models@, k as nat),
    decreases action, 1nat,
{
    match action {
        Action::Title { title } => show_title(pad, title.as_str()),
        Action::SpawnMob { mob } => spawn_mob(pad, mob.as_str()),
        Action::Repeat { times, actions } => {
            let mut inner = String::from_str(pad);
            inner.append("    ");
            let mut text = repeat_header(pad, *times);
            let body = emit_body(action, actions, inner.as_str(), Ghost(level + 1), models, k);
            let footer = block_footer(pad);
            text.append(body.as_str());
            text.append(footer.as_str());
            text
        },
        Action::RepeatForever { actions } => {
            let mut inner = String::from_str(pad);
            inner.append("    ");
            inner.append("    ");
            assert(inner@ == indent_text(level + 2)) by {
                assert(indent_text(level + 2) == indent_text((level + 1) as nat) + indent_unit());
            }
            let mut text = forever_header(pad);
            let body = emit_body(action, actions, inner.as_str(), Ghost(level + 2), models, k);
            let footer = forever_footer(pad);
            text.append(body.as_str());
            text.append(footer.as_str());
            text
        },
        Action::Wait { seconds } => wait(pad, seconds.as_str()),
        Action::IfThen { condition, actions } => {
            let mut inner = String::from_str(pad);
            inner.append("    ");
            let guard = generate_condition_java(condition);
            let mut text = if_header(pad, guard.as_str());
            let body = emit_body(action, actions, inner.as_str(), Ghost(level + 1), models, k);
            let footer = block_footer(pad);
            text.append(body.as_str());
            text.append(footer.as_str());
            text
        },
        Action::Message { message } => send_message(pad, message.as_str()),
        Action::GiveItem { item, amount } => give_item(pad, item.as_str(), *amount),
        Action::PlaySound { sound } => play_sound(pad, sound.as_str()),
        Action::Actionbar { text } => actionbar(pad, text.as_str()),
        Action::PlayerEffect { effect, duration } => {
            let lower = to_lowercase(effect.as_str());
            player_effect(pad, effect.as_str(), lower.as_str(), *duration)
        },
        Action::PlayerHealth { health } => player_health(pad, *health),
        Action::WorldPlaceBlock { block } => world_place_block(pad, block.as_str()),
        Action::WorldTime { time } => world_time(pad, time.as_str()),
        Action::WorldWeather { weather } => world_weather(pad, weather.as_str()),
        Action::WorldExplosion { power } => world_explosion(pad, power.as_str()),
        Action::WorldLightning {  } => world_lightning(pad),
        Action::WorldFill { size, block } => world_fill(pad, *size, block.as_str()),
        Action::WorldEntityFollow { entity, range, duration } => world_entity_follow(
            pad,
            entity.as_str(),
            *range,
            *duration,
        ),
        Action::WorldEntityAttack { entity, range } => world_entity_attack(pad, entity.as_str(), *range),
        Action::WorldEntityTame { entity, range } => world_entity_tame(pad, entity.as_str(), *range),
        Action::MotionMoveForward { distance } => motion_move_forward(pad, distance.as_str()),
        Action::MotionTeleport { x, y, z } => motion_teleport(pad, x.as_str(), y.as_str(), z.as_str()),
        Action::MotionTeleportForward { distance } => motion_teleport_forward(pad, *distance),
        Action::MotionTeleportVertical { distance, direction } => {
            let lower = to_lowercase(direction.as_str());
            let offset = vertical_offset(direction.as_str(), *distance);
            motion_teleport_vertical(pad, *distance, lower.as_str(), offset.as_str())
        },
        Action::MotionTeleportSpawn {  } => motion_teleport_spawn(pad),
        Action::MotionRotate { direction } => motion_rotate(pad, direction.as_str()),
        Action::MotionLaunch { power, direction } => {
            let velocity = launch_velocity(pad, direction.as_str(), power.as_str());
            motion_launch(pad, velocity.as_str())
        },
        Action::MotionSetX { axis, value } => {
            let statement = set_position(axis.as_str(), value.as_str());
            let mut text = String::from_str(pad);
            text.append(statement.as_str());
            text
        },
        Action::MotionChangeX { axis, value } => {
            let statement = change_position(axis.as_str(), value.as_str());
            let mut text = String::from_str(pad);
            text.append(statement.as_str());
            text
        },
        Action::LooksSubtitle { subtitle } => looks_subtitle(pad, subtitle.as_str()),
        Action::LooksParticles { particle, count } => {
            let upper = to_uppercase(particle.as_str());
            particles(pad, particle.as_str(), upper.as_str(), *count)
        },
        Action::LooksClearEffects {  } => looks_clear_effects(pad),
        Action::LooksDisplayName { name } => looks_display_name(pad, name.as_str()),
        Action::LooksGamemode { gamemode } => looks_gamemode(pad, gamemode.as_str()),
        Action::SoundMusicDisc { disc } => sound_music_disc(pad, disc.as_str()),
        Action::SoundStopAll {  } => sound_stop_all(pad),
        Action::CustomActionProjectile { projectile, speed } => custom_projectile(
            pad,
            projectile.as_str(),
            speed.as_str(),
        ),
        Action::CustomActionParticles { particle, count } => {
            let upper = to_uppercase(particle.as_str());
            particles(pad, particle.as_str(), upper.as_str(), *count)
        },
        Action::CustomActionAreaEffect { effect_type, radius, power } => {
            let code = effect_code(effect_type.as_str(), power.as_str());
            area_effect(pad, effect_type.as_str(), *radius, power.as_str(), code.as_str())
        },
        Action::CustomActionTeleportLook { distance } => teleport_look(pad, *distance),
        Action::SpawnBlockDisplayModel { model_id } => spawn_named_model(pad, models, model_id.as_str(), k),
    }
}

/// Emits the Java code of `action` at nesting level `indent`, looking models
/// up in `models` and spawning at most `k` blocks per method.
pub fn emit_action(action: &Action, indent: usize, models: &Vec<BlockDisplayModel>, k: usize) -> (text: String)
    requires
        k > 0,
    ensures
        text@ == action_text(*action, indent as nat, models@, k as nat),
{
    let pad = indent_string(indent);
    emit(action, pad.as_str(), Ghost(indent as nat), models, k)
}

/// Emits the Java code of `action` at nesting level `indent`, with the
/// models of `mod_data`.
pub fn generate_action_java(action: &Action, indent: usize, mod_data: &ModData) -> (text: String)
    ensures
        text@ == action_text(
            *action,
            indent as nat,
            mod_data.block_display_models@,
            BLOCKS_PER_METHOD as nat,
        ),
{
    emit_action(action, indent, &mod_data.block_display_models, BLOCKS_PER_METHOD)
}

} // verus!
