//! The Java text of every construct that the compiler emits, one template
//! per construct. A template is a pure function of its parameters: `pad` is
//! the leading whitespace of every line of the statement, numbers are written
//! in decimal, and in a text shown to the player every double quote is
//! escaped.

use vstd::prelude::*;
use vstd::string::*;
use crate::text::{append_count, append_decimal, decimal, escape_text, escaped};

verus! {

/// The statement that shows `title` to the command source as feedback.
pub open spec fn show_title_text(pad: Seq<char>, title: Seq<char>) -> Seq<char> {
    pad + "source.sendFeedback(() -> Text.literal(\""@ + escaped(title) + "\"), false);"@
}

/// Emits the feedback statement for a title.
pub fn show_title(pad: &str, title: &str) -> (text: String)
    ensures
        text@ == show_title_text(pad@, title@),
{
    let mut text = String::from_str(pad);
    let escaped_title = escape_text(title);
    text.append("source.sendFeedback(() -> Text.literal(\"");
    text.append(escaped_title.as_str());
    text.append("\"), false);");
    text
}

/// The statements that look up the entity type `mob` and spawn one ten blocks above the position.
pub open spec fn spawn_mob_text(pad: Seq<char>, mob: Seq<char>) -> Seq<char> {
    pad + "// Spawn mob: "@ + mob + "\n"@
        + pad + "EntityType<?> entityType = Registries.ENTITY_TYPE.get(Identifier.tryParse(\""@ + mob + "\"));\n"@
        + pad + "if (entityType != null) {\n"@
        + pad + "    Entity entity = entityType.create(world);\n"@
        + pad + "    if (entity != null) {\n"@
        + pad + "        entity.refreshPositionAndAngles(pos.getX(), pos.getY() + 10, pos.getZ(), 0, 0);\n"@
        + pad + "        world.spawnEntity(entity);\n"@
        + pad + "    }\n"@
        + pad + "}"@
}

/// Emits the statements that spawn a mob.
pub fn spawn_mob(pad: &str, mob: &str) -> (text: String)
    ensures
        text@ == spawn_mob_text(pad@, mob@),
{
    let mut text = String::from_str(pad);
    text.append("// Spawn mob: ");
    text.append(mob);
    text.append("\n");
    text.append(pad);
    text.append("EntityType<?> entityType = Registries.ENTITY_TYPE.get(Identifier.tryParse(\"");
    text.append(mob);
    text.append("\"));\n");
    text.append(pad);
    text.append("if (entityType != null) {\n");
    text.append(pad);
    text.append("    Entity entity = entityType.create(world);\n");
    text.append(pad);
    text.append("    if (entity != null) {\n");
    text.append(pad);
    text.append("        entity.refreshPositionAndAngles(pos.getX(), pos.getY() + 10, pos.getZ(), 0, 0);\n");
    text.append(pad);
    text.append("        world.spawnEntity(entity);\n");
    text.append(pad);
    text.append("    }\n");
    text.append(pad);
    text.append("}");
    text
}

/// The statement that sends `message` to the command source.
pub open spec fn send_message_text(pad: Seq<char>, message: Seq<char>) -> Seq<char> {
    pad + "source.sendMessage(Text.literal(\""@ + escaped(message) + "\"));"@
}

/// Emits the statement that sends a chat message.
pub fn send_message(pad: &str, message: &str) -> (text: String)
    ensures
        text@ == send_message_text(pad@, message@),
{
    let mut text = String::from_str(pad);
    let escaped_message = escape_text(message);
    text.append("source.sendMessage(Text.literal(\"");
    text.append(escaped_message.as_str());
    text.append("\"));");
    text
}

/// The statements that hand `amount` of `item` to the player.
pub open spec fn give_item_text(pad: Seq<char>, item: Seq<char>, amount: int) -> Seq<char> {
    pad + "// Give item: "@ + item + " x"@ + decimal(amount) + "\n"@
        + pad + "if (source.getPlayer() != null) {\n"@
        + pad + "    ItemStack itemStack = new ItemStack(Registries.ITEM.get(Identifier.tryParse(\""@ + item + "\")), "@ + decimal(amount) + ");\n"@
        + pad + "    source.getPlayer().giveItemStack(itemStack);\n"@
        + pad + "}"@
}

/// Emits the statements that give an item stack.
pub fn give_item(pad: &str, item: &str, amount: i32) -> (text: String)
    ensures
        text@ == give_item_text(pad@, item@, amount as int),
{
    let mut text = String::from_str(pad);
    text.append("// Give item: ");
    text.append(item);
    text.append(" x");
    append_decimal(&mut text, amount);
    text.append("\n");
    text.append(pad);
    text.append("if (source.getPlayer() != null) {\n");
    text.append(pad);
    text.append("    ItemStack itemStack = new ItemStack(Registries.ITEM.get(Identifier.tryParse(\"");
    text.append(item);
    text.append("\")), ");
    append_decimal(&mut text, amount);
    text.append(");\n");
    text.append(pad);
    text.append("    source.getPlayer().giveItemStack(itemStack);\n");
    text.append(pad);
    text.append("}");
    text
}

/// The statement that plays `sound` at the position.
pub open spec fn play_sound_text(pad: Seq<char>, sound: Seq<char>) -> Seq<char> {
    pad + "// Play sound: "@ + sound + "\n"@
        + pad + "world.playSound(null, pos.x, pos.y, pos.z, \n"@
        + pad + "    Registries.SOUND_EVENT.get(Identifier.tryParse(\""@ + sound + "\")),\n"@
        + pad + "    SoundCategory.PLAYERS, 1.0f, 1.0f);"@
}

/// Emits the statement that plays a sound.
pub fn play_sound(pad: &str, sound: &str) -> (text: String)
    ensures
        text@ == play_sound_text(pad@, sound@),
{
    let mut text = String::from_str(pad);
    text.append("// Play sound: ");
    text.append(sound);
    text.append("\n");
    text.append(pad);
    text.append("world.playSound(null, pos.x, pos.y, pos.z, \n");
    text.append(pad);
    text.append("    Registries.SOUND_EVENT.get(Identifier.tryParse(\"");
    text.append(sound);
    text.append("\")),\n");
    text.append(pad);
    text.append("    SoundCategory.PLAYERS, 1.0f, 1.0f);");
    text
}

/// The statements that show `message` in the action bar. The comment line
/// carries the message as given, the literal carries it escaped.
pub open spec fn actionbar_text(pad: Seq<char>, message: Seq<char>) -> Seq<char> {
    pad + "// Show action bar: "@ + message + "\n"@
        + pad + "if (source.getPlayer() != null) {\n"@
        + pad + "    source.getPlayer().sendMessage(Text.literal(\""@ + escaped(message) + "\"), true);\n"@
        + pad + "}"@
}

/// Emits the statements that show an action bar message.
pub fn actionbar(pad: &str, message: &str) -> (text: String)
    ensures
        text@ == actionbar_text(pad@, message@),
{
    let mut text = String::from_str(pad);
    let escaped_message = escape_text(message);
    text.append("// Show action bar: ");
    text.append(message);
    text.append("\n");
    text.append(pad);
    text.append("if (source.getPlayer() != null) {\n");
    text.append(pad);
    text.append("    source.getPlayer().sendMessage(Text.literal(\"");
    text.append(escaped_message.as_str());
    text.append("\"), true);\n");
    text.append(pad);
    text.append("}");
    text
}

/// The statements that apply a status effect for `duration` seconds. The
/// comment names the effect as given; the registry key is `effect_lower`, the
/// effect name in lower case.
pub open spec fn player_effect_text(pad: Seq<char>, effect: Seq<char>, effect_lower: Seq<char>, duration: int) -> Seq<char> {
    pad + "// Apply effect: "@ + effect + " for "@ + decimal(duration) + " seconds\n"@
        + pad + "var effectOptional = net.minecraft.registry.Registries.STATUS_EFFECT.getEntry(\n"@
        + pad + "    net.minecraft.registry.RegistryKey.of(\n"@
        + pad + "        net.minecraft.registry.RegistryKeys.STATUS_EFFECT,\n"@
        + pad + "        net.minecraft.util.Identifier.of(\"minecraft\", \""@ + effect_lower + "\")));\n"@
        + pad + "if (effectOptional.isPresent()) {\n"@
        + pad + "    player.addStatusEffect(new net.minecraft.entity.effect.StatusEffectInstance(\n"@
        + pad + "        effectOptional.get(), "@ + decimal(duration) + " * 20, 0));\n"@
        + pad + "}"@
}

/// Emits the statements that apply a status effect; `effect_lower` is the
/// effect name in lower case.
pub fn player_effect(pad: &str, effect: &str, effect_lower: &str, duration: i32) -> (text: String)
    ensures
        text@ == player_effect_text(pad@, effect@, effect_lower@, duration as int),
{
    let mut text = String::from_str(pad);
    text.append("// Apply effect: ");
    text.append(effect);
    text.append(" for ");
    append_decimal(&mut text, duration);
    text.append(" seconds\n");
    text.append(pad);
    text.append("var effectOptional = net.minecraft.registry.Registries.STATUS_EFFECT.getEntry(\n");
    text.append(pad);
    text.append("    net.minecraft.registry.RegistryKey.of(\n");
    text.append(pad);
    text.append("        net.minecraft.registry.RegistryKeys.STATUS_EFFECT,\n");
    text.append(pad);
    text.append("        net.minecraft.util.Identifier.of(\"minecraft\", \"");
    text.append(effect_lower);
    text.append("\")));\n");
    text.append(pad);
    text.append("if (effectOptional.isPresent()) {\n");
    text.append(pad);
    text.append("    player.addStatusEffect(new net.minecraft.entity.effect.StatusEffectInstance(\n");
    text.append(pad);
    text.append("        effectOptional.get(), ");
    append_decimal(&mut text, duration);
    text.append(" * 20, 0));\n");
    text.append(pad);
    text.append("}");
    text
}

/// The statement that sets the health of the player.
pub open spec fn player_health_text(pad: Seq<char>, health: int) -> Seq<char> {
    pad + "player.setHealth("@ + decimal(health) + ".0f);"@
}

/// Emits the statement that sets the health of the player.
pub fn player_health(pad: &str, health: i32) -> (text: String)
    ensures
        text@ == player_health_text(pad@, health as int),
{
    let mut text = String::from_str(pad);
    text.append("player.setHealth(");
    append_decimal(&mut text, health);
    text.append(".0f);");
    text
}

/// The statement that places `block` where the player stands.
pub open spec fn world_place_block_text(pad: Seq<char>, block: Seq<char>) -> Seq<char> {
    pad + "world.setBlockState(player.getBlockPos(), \n"@
        + pad + "    Registries.BLOCK.get(Identifier.tryParse(\""@ + block + "\")).getDefaultState());"@
}

/// Emits the statement that places a block.
pub fn world_place_block(pad: &str, block: &str) -> (text: String)
    ensures
        text@ == world_place_block_text(pad@, block@),
{
    let mut text = String::from_str(pad);
    text.append("world.setBlockState(player.getBlockPos(), \n");
    text.append(pad);
    text.append("    Registries.BLOCK.get(Identifier.tryParse(\"");
    text.append(block);
    text.append("\")).getDefaultState());");
    text
}

/// The statement that sets the time of day.
pub open spec fn world_time_text(pad: Seq<char>, time: Seq<char>) -> Seq<char> {
    pad + "world.setTimeOfDay("@ + time + ");"@
}

/// Emits the statement that sets the time of day.
pub fn world_time(pad: &str, time: &str) -> (text: String)
    ensures
        text@ == world_time_text(pad@, time@),
{
    let mut text = String::from_str(pad);
    text.append("world.setTimeOfDay(");
    text.append(time);
    text.append(");");
    text
}

/// The statement that creates an explosion of strength `power`.
pub open spec fn world_explosion_text(pad: Seq<char>, power: Seq<char>) -> Seq<char> {
    pad + "world.createExplosion(null, pos.x, pos.y, pos.z, "@ + power + "f, World.ExplosionSourceType.NONE);"@
}

/// Emits the statement that creates an explosion.
pub fn world_explosion(pad: &str, power: &str) -> (text: String)
    ensures
        text@ == world_explosion_text(pad@, power@),
{
    let mut text = String::from_str(pad);
    text.append("world.createExplosion(null, pos.x, pos.y, pos.z, ");
    text.append(power);
    text.append("f, World.ExplosionSourceType.NONE);");
    text
}

/// The statements that make nearby mobs of kind `entity` walk towards the
/// player for `duration` seconds.
pub open spec fn world_entity_follow_text(pad: Seq<char>, entity: Seq<char>, range: int, duration: int) -> Seq<char> {
    pad + "// Make "@ + entity + " follow player for "@ + decimal(duration) + " seconds within "@ + decimal(range) + " blocks\n"@
        + pad + "new Thread(() -> {\n"@
        + pad + "    for (int i = 0; i < "@ + decimal(duration) + " * 20; i++) {\n"@
        + pad + "        try {\n"@
        + pad + "            Thread.sleep(50);\n"@
        + pad + "            ((ServerWorld)world).getServer().execute(() -> {\n"@
        + pad + "                var followingEntities = world.getEntitiesByClass(net.minecraft.entity.mob.MobEntity.class, \n"@
        + pad + "                    player.getBoundingBox().expand("@ + decimal(range) + "), e -> e.getType().toString().contains(\""@ + entity + "\"));\n"@
        + pad + "                followingEntities.forEach(e -> {\n"@
        + pad + "                    if (e.squaredDistanceTo(player) <= "@ + decimal(range) + " * "@ + decimal(range) + ") {\n"@
        + pad + "                        e.getNavigation().startMovingTo(player, 1.0);\n"@
        + pad + "                    }\n"@
        + pad + "                });\n"@
        + pad + "            });\n"@
        + pad + "        } catch (InterruptedException ex) { break; }\n"@
        + pad + "    }\n"@
        + pad + "}).start();"@
}

/// Emits the statements that make mobs follow the player.
pub fn world_entity_follow(pad: &str, entity: &str, range: i32, duration: i32) -> (text: String)
    ensures
        text@ == world_entity_follow_text(pad@, entity@, range as int, duration as int),
{
    let mut text = String::from_str(pad);
    text.append("// Make ");
    text.append(entity);
    text.append(" follow player for ");
    append_decimal(&mut text, duration);
    text.append(" seconds within ");
    append_decimal(&mut text, range);
    text.append(" blocks\n");
    text.append(pad);
    text.append("new Thread(() -> {\n");
    text.append(pad);
    text.append("    for (int i = 0; i < ");
    append_decimal(&mut text, duration);
    text.append(" * 20; i++) {\n");
    text.append(pad);
    text.append("        try {\n");
    text.append(pad);
    text.append("            Thread.sleep(50);\n");
    text.append(pad);
    text.append("            ((ServerWorld)world).getServer().execute(() -> {\n");
    text.append(pad);
    text.append("                var followingEntities = world.getEntitiesByClass(net.minecraft.entity.mob.MobEntity.class, \n");
    text.append(pad);
    text.append("                    player.getBoundingBox().expand(");
    append_decimal(&mut text, range);
    text.append("), e -> e.getType().toString().contains(\"");
    text.append(entity);
    text.append("\"));\n");
    text.append(pad);
    text.append("                followingEntities.forEach(e -> {\n");
    text.append(pad);
    text.append("                    if (e.squaredDistanceTo(player) <= ");
    append_decimal(&mut text, range);
    text.append(" * ");
    append_decimal(&mut text, range);
    text.append(") {\n");
    text.append(pad);
    text.append("                        e.getNavigation().startMovingTo(player, 1.0);\n");
    text.append(pad);
    text.append("                    }\n");
    text.append(pad);
    text.append("                });\n");
    text.append(pad);
    text.append("            });\n");
    text.append(pad);
    text.append("        } catch (InterruptedException ex) { break; }\n");
    text.append(pad);
    text.append("    }\n");
    text.append(pad);
    text.append("}).start();");
    text
}

/// The statements that make nearby mobs of kind `entity` target the player.
pub open spec fn world_entity_attack_text(pad: Seq<char>, entity: Seq<char>, range: int) -> Seq<char> {
    pad + "// Make "@ + entity + " attack player within "@ + decimal(range) + " blocks\n"@
        + pad + "world.getEntitiesByClass(net.minecraft.entity.mob.MobEntity.class, \n"@
        + pad + "    player.getBoundingBox().expand("@ + decimal(range) + "), e -> e.getType().toString().contains(\""@ + entity + "\"))\n"@
        + pad + "    .forEach(e -> e.setTarget(player));"@
}

/// Emits the statements that make mobs attack the player.
pub fn world_entity_attack(pad: &str, entity: &str, range: i32) -> (text: String)
    ensures
        text@ == world_entity_attack_text(pad@, entity@, range as int),
{
    let mut text = String::from_str(pad);
    text.append("// Make ");
    text.append(entity);
    text.append(" attack player within ");
    append_decimal(&mut text, range);
    text.append(" blocks\n");
    text.append(pad);
    text.append("world.getEntitiesByClass(net.minecraft.entity.mob.MobEntity.class, \n");
    text.append(pad);
    text.append("    player.getBoundingBox().expand(");
    append_decimal(&mut text, range);
    text.append("), e -> e.getType().toString().contains(\"");
    text.append(entity);
    text.append("\"))\n");
    text.append(pad);
    text.append("    .forEach(e -> e.setTarget(player));");
    text
}

/// The statements that tame nearby animals of kind `entity`.
pub open spec fn world_entity_tame_text(pad: Seq<char>, entity: Seq<char>, range: int) -> Seq<char> {
    pad + "// Tame "@ + entity + " within "@ + decimal(range) + " blocks\n"@
        + pad + "world.getEntitiesByClass(net.minecraft.entity.passive.TameableEntity.class, \n"@
        + pad + "    player.getBoundingBox().expand("@ + decimal(range) + "), e -> e.getType().toString().contains(\""@ + entity + "\"))\n"@
        + pad + "    .forEach(e -> { e.setOwner(player); e.setTamed(true); });"@
}

/// Emits the statements that tame nearby animals.
pub fn world_entity_tame(pad: &str, entity: &str, range: i32) -> (text: String)
    ensures
        text@ == world_entity_tame_text(pad@, entity@, range as int),
{
    let mut text = String::from_str(pad);
    text.append("// Tame ");
    text.append(entity);
    text.append(" within ");
    append_decimal(&mut text, range);
    text.append(" blocks\n");
    text.append(pad);
    text.append("world.getEntitiesByClass(net.minecraft.entity.passive.TameableEntity.class, \n");
    text.append(pad);
    text.append("    player.getBoundingBox().expand(");
    append_decimal(&mut text, range);
    text.append("), e -> e.getType().toString().contains(\"");
    text.append(entity);
    text.append("\"))\n");
    text.append(pad);
    text.append("    .forEach(e -> { e.setOwner(player); e.setTamed(true); });");
    text
}

/// The statements that move the player `distance` blocks along the view direction.
pub open spec fn motion_move_forward_text(pad: Seq<char>, distance: Seq<char>) -> Seq<char> {
    pad + "Vec3d forward = player.getRotationVector().multiply("@ + distance + ");\n"@
        + pad + "player.teleport(pos.x + forward.x, pos.y, pos.z + forward.z);"@
}

/// Emits the statements that move the player forward.
pub fn motion_move_forward(pad: &str, distance: &str) -> (text: String)
    ensures
        text@ == motion_move_forward_text(pad@, distance@),
{
    let mut text = String::from_str(pad);
    text.append("Vec3d forward = player.getRotationVector().multiply(");
    text.append(distance);
    text.append(");\n");
    text.append(pad);
    text.append("player.teleport(pos.x + forward.x, pos.y, pos.z + forward.z);");
    text
}

/// The statement that teleports the player to a fixed position.
pub open spec fn motion_teleport_text(pad: Seq<char>, x: Seq<char>, y: Seq<char>, z: Seq<char>) -> Seq<char> {
    pad + "player.teleport("@ + x + ", "@ + y + ", "@ + z + ");"@
}

/// Emits the statement that teleports the player to a position.
pub fn motion_teleport(pad: &str, x: &str, y: &str, z: &str) -> (text: String)
    ensures
        text@ == motion_teleport_text(pad@, x@, y@, z@),
{
    let mut text = String::from_str(pad);
    text.append("player.teleport(");
    text.append(x);
    text.append(", ");
    text.append(y);
    text.append(", ");
    text.append(z);
    text.append(");");
    text
}

/// The statements that teleport the player `distance` blocks forward.
pub open spec fn motion_teleport_forward_text(pad: Seq<char>, distance: int) -> Seq<char> {
    pad + "// Teleport "@ + decimal(distance) + " blocks forward\n"@
        + pad + "Vec3d forward = player.getRotationVector().multiply("@ + decimal(distance) + ");\n"@
        + pad + "player.teleport(pos.x + forward.x, pos.y, pos.z + forward.z);"@
}

/// Emits the statements that teleport the player forward.
pub fn motion_teleport_forward(pad: &str, distance: i32) -> (text: String)
    ensures
        text@ == motion_teleport_forward_text(pad@, distance as int),
{
    let mut text = String::from_str(pad);
    text.append("// Teleport ");
    append_decimal(&mut text, distance);
    text.append(" blocks forward\n");
    text.append(pad);
    text.append("Vec3d forward = player.getRotationVector().multiply(");
    append_decimal(&mut text, distance);
    text.append(");\n");
    text.append(pad);
    text.append("player.teleport(pos.x + forward.x, pos.y, pos.z + forward.z);");
    text
}

/// The statements that teleport the player up or down. The comment names the
/// direction in lower case (`direction_lower`); `offset` is the signed height.
pub open spec fn motion_teleport_vertical_text(pad: Seq<char>, distance: int, direction_lower: Seq<char>, offset: Seq<char>) -> Seq<char> {
    pad + "// Teleport "@ + decimal(distance) + " blocks "@ + direction_lower + "\n"@
        + pad + "player.teleport(pos.x, pos.y + "@ + offset + ", pos.z);"@
}

/// Emits the statements that teleport the player up or down;
/// `direction_lower` is the direction in lower case, `offset` the signed height.
pub fn motion_teleport_vertical(pad: &str, distance: i32, direction_lower: &str, offset: &str) -> (text: String)
    ensures
        text@ == motion_teleport_vertical_text(pad@, distance as int, direction_lower@, offset@),
{
    let mut text = String::from_str(pad);
    text.append("// Teleport ");
    append_decimal(&mut text, distance);
    text.append(" blocks ");
    text.append(direction_lower);
    text.append("\n");
    text.append(pad);
    text.append("player.teleport(pos.x, pos.y + ");
    text.append(offset);
    text.append(", pos.z);");
    text
}

/// The statements that teleport the player to the world spawn.
pub open spec fn motion_teleport_spawn_text(pad: Seq<char>) -> Seq<char> {
    pad + "// Teleport to world spawn\n"@
        + pad + "var spawnPos = ((ServerWorld)world).getSpawnPos();\n"@
        + pad + "player.teleport(spawnPos.getX(), spawnPos.getY(), spawnPos.getZ());"@
}

/// Emits the statements that teleport the player to the world spawn.
pub fn motion_teleport_spawn(pad: &str) -> (text: String)
    ensures
        text@ == motion_teleport_spawn_text(pad@),
{
    let mut text = String::from_str(pad);
    text.append("// Teleport to world spawn\n");
    text.append(pad);
    text.append("var spawnPos = ((ServerWorld)world).getSpawnPos();\n");
    text.append(pad);
    text.append("player.teleport(spawnPos.getX(), spawnPos.getY(), spawnPos.getZ());");
    text
}

/// The statement that turns the player to the yaw `direction`.
pub open spec fn motion_rotate_text(pad: Seq<char>, direction: Seq<char>) -> Seq<char> {
    pad + "player.setYaw("@ + direction + "f);"@
}

/// Emits the statement that turns the player.
pub fn motion_rotate(pad: &str, direction: &str) -> (text: String)
    ensures
        text@ == motion_rotate_text(pad@, direction@),
{
    let mut text = String::from_str(pad);
    text.append("player.setYaw(");
    text.append(direction);
    text.append("f);");
    text
}

/// The velocity statement of an upward launch.
pub open spec fn launch_up_text(power: Seq<char>) -> Seq<char> {
    "player.setVelocity(0, "@ + power + ", 0);"@
}

/// Emits the velocity statement of an upward launch.
pub fn launch_up(power: &str) -> (text: String)
    ensures
        text@ == launch_up_text(power@),
{
    let mut text = String::from_str("player.setVelocity(0, ");
    text.append(power);
    text.append(", 0);");
    text
}

/// The velocity statements of a launch along the view direction. The first
/// follows the indentation that the launch has written; the second begins
/// with the indentation `pad` of its own.
pub open spec fn launch_forward_text(pad: Seq<char>, power: Seq<char>) -> Seq<char> {
    "Vec3d forward = player.getRotationVector().multiply("@ + power + ");\n"@
        + pad + "player.setVelocity(forward);"@
}

/// Emits the velocity statements of a forward launch.
pub fn launch_forward(pad: &str, power: &str) -> (text: String)
    ensures
        text@ == launch_forward_text(pad@, power@),
{
    let mut text = String::from_str("Vec3d forward = player.getRotationVector().multiply(");
    text.append(power);
    text.append(");\n");
    text.append(pad);
    text.append("player.setVelocity(forward);");
    text
}

/// The velocity statements of a launch against the view direction. The first
/// follows the indentation that the launch has written; the second begins
/// with the indentation `pad` of its own.
pub open spec fn launch_backward_text(pad: Seq<char>, power: Seq<char>) -> Seq<char> {
    "Vec3d backward = player.getRotationVector().multiply(-"@ + power + ");\n"@
        + pad + "player.setVelocity(backward);"@
}

/// Emits the velocity statements of a backward launch.
pub fn launch_backward(pad: &str, power: &str) -> (text: String)
    ensures
        text@ == launch_backward_text(pad@, power@),
{
    let mut text = String::from_str("Vec3d backward = player.getRotationVector().multiply(-");
    text.append(power);
    text.append(");\n");
    text.append(pad);
    text.append("player.setVelocity(backward);");
    text
}

/// The statements of a launch: the indented `velocity` statements, then the
/// indented line that marks the velocity as changed.
pub open spec fn motion_launch_text(pad: Seq<char>, velocity: Seq<char>) -> Seq<char> {
    pad + velocity + "\n"@
        + pad + "player.velocityModified = true;"@
}

/// Emits the statements of a launch around the given velocity statements.
pub fn motion_launch(pad: &str, velocity: &str) -> (text: String)
    ensures
        text@ == motion_launch_text(pad@, velocity@),
{
    let mut text = String::from_str(pad);
    text.append(velocity);
    text.append("\n");
    text.append(pad);
    text.append("player.velocityModified = true;");
    text
}

/// The statement that sets the x coordinate of the player to `value`.
pub open spec fn set_x_text(value: Seq<char>) -> Seq<char> {
    "player.teleport("@ + value + ", pos.y, pos.z);"@
}

/// Emits the statement that sets the x coordinate.
pub fn set_x(value: &str) -> (text: String)
    ensures
        text@ == set_x_text(value@),
{
    let mut text = String::from_str("player.teleport(");
    text.append(value);
    text.append(", pos.y, pos.z);");
    text
}

/// The statement that sets the y coordinate of the player to `value`.
pub open spec fn set_y_text(value: Seq<char>) -> Seq<char> {
    "player.teleport(pos.x, "@ + value + ", pos.z);"@
}

/// Emits the statement that sets the y coordinate.
pub fn set_y(value: &str) -> (text: String)
    ensures
        text@ == set_y_text(value@),
{
    let mut text = String::from_str("player.teleport(pos.x, ");
    text.append(value);
    text.append(", pos.z);");
    text
}

/// The statement that sets the z coordinate of the player to `value`.
pub open spec fn set_z_text(value: Seq<char>) -> Seq<char> {
    "player.teleport(pos.x, pos.y, "@ + value + ");"@
}

/// Emits the statement that sets the z coordinate.
pub fn set_z(value: &str) -> (text: String)
    ensures
        text@ == set_z_text(value@),
{
    let mut text = String::from_str("player.teleport(pos.x, pos.y, ");
    text.append(value);
    text.append(");");
    text
}

/// The statement that adds `value` to the x coordinate of the player.
pub open spec fn change_x_text(value: Seq<char>) -> Seq<char> {
    "player.teleport(pos.x + "@ + value + ", pos.y, pos.z);"@
}

/// Emits the statement that changes the x coordinate.
pub fn change_x(value: &str) -> (text: String)
    ensures
        text@ == change_x_text(value@),
{
    let mut text = String::from_str("player.teleport(pos.x + ");
    text.append(value);
    text.append(", pos.y, pos.z);");
    text
}

/// The statement that adds `value` to the y coordinate of the player.
pub open spec fn change_y_text(value: Seq<char>) -> Seq<char> {
    "player.teleport(pos.x, pos.y + "@ + value + ", pos.z);"@
}

/// Emits the statement that changes the y coordinate.
pub fn change_y(value: &str) -> (text: String)
    ensures
        text@ == change_y_text(value@),
{
    let mut text = String::from_str("player.teleport(pos.x, pos.y + ");
    text.append(value);
    text.append(", pos.z);");
    text
}

/// The statement that adds `value` to the z coordinate of the player.
pub open spec fn change_z_text(value: Seq<char>) -> Seq<char> {
    "player.teleport(pos.x, pos.y, pos.z + "@ + value + ");"@
}

/// Emits the statement that changes the z coordinate.
pub fn change_z(value: &str) -> (text: String)
    ensures
        text@ == change_z_text(value@),
{
    let mut text = String::from_str("player.teleport(pos.x, pos.y, pos.z + ");
    text.append(value);
    text.append(");");
    text
}

/// The statement that shows `subtitle` to the player.
pub open spec fn looks_subtitle_text(pad: Seq<char>, subtitle: Seq<char>) -> Seq<char> {
    pad + "player.sendMessage(Text.literal(\""@ + escaped(subtitle) + "\"), false);"@
}

/// Emits the statement that shows a subtitle.
pub fn looks_subtitle(pad: &str, subtitle: &str) -> (text: String)
    ensures
        text@ == looks_subtitle_text(pad@, subtitle@),
{
    let mut text = String::from_str(pad);
    let escaped_subtitle = escape_text(subtitle);
    text.append("player.sendMessage(Text.literal(\"");
    text.append(escaped_subtitle.as_str());
    text.append("\"), false);");
    text
}

/// The statements that spawn `count` particles. The comment names the kind
/// as given; the particle type is `particle_upper`, the kind in upper case.
pub open spec fn particles_text(pad: Seq<char>, particle: Seq<char>, particle_upper: Seq<char>, count: int) -> Seq<char> {
    pad + "// Spawn "@ + decimal(count) + " "@ + particle + " particles\n"@
        + pad + "for (int i = 0; i < "@ + decimal(count) + "; i++) {\n"@
        + pad + "    ((ServerWorld)world).spawnParticles(net.minecraft.particle.ParticleTypes."@ + particle_upper + ",\n"@
        + pad + "        pos.x, pos.y + 1, pos.z, 1, 0.5, 0.5, 0.5, 0.1);\n"@
        + pad + "}"@
}

/// Emits the statements that spawn particles; `particle_upper` is the
/// particle kind in upper case.
pub fn particles(pad: &str, particle: &str, particle_upper: &str, count: i32) -> (text: String)
    ensures
        text@ == particles_text(pad@, particle@, particle_upper@, count as int),
{
    let mut text = String::from_str(pad);
    text.append("// Spawn ");
    append_decimal(&mut text, count);
    text.append(" ");
    text.append(particle);
    text.append(" particles\n");
    text.append(pad);
    text.append("for (int i = 0; i < ");
    append_decimal(&mut text, count);
    text.append("; i++) {\n");
    text.append(pad);
    text.append("    ((ServerWorld)world).spawnParticles(net.minecraft.particle.ParticleTypes.");
    text.append(particle_upper);
    text.append(",\n");
    text.append(pad);
    text.append("        pos.x, pos.y + 1, pos.z, 1, 0.5, 0.5, 0.5, 0.1);\n");
    text.append(pad);
    text.append("}");
    text
}

/// The statement that clears all status effects.
pub open spec fn looks_clear_effects_text(pad: Seq<char>) -> Seq<char> {
    pad + "player.clearStatusEffects();"@
}

/// Emits the statement that clears all status effects.
pub fn looks_clear_effects(pad: &str) -> (text: String)
    ensures
        text@ == looks_clear_effects_text(pad@),
{
    let mut text = String::from_str(pad);
    text.append("player.clearStatusEffects();");
    text
}

/// The statement that sets the display name of the player.
pub open spec fn looks_display_name_text(pad: Seq<char>, name: Seq<char>) -> Seq<char> {
    pad + "player.setCustomName(Text.literal(\""@ + escaped(name) + "\"));"@
}

/// Emits the statement that sets the display name.
pub fn looks_display_name(pad: &str, name: &str) -> (text: String)
    ensures
        text@ == looks_display_name_text(pad@, name@),
{
    let mut text = String::from_str(pad);
    let escaped_name = escape_text(name);
    text.append("player.setCustomName(Text.literal(\"");
    text.append(escaped_name.as_str());
    text.append("\"));");
    text
}

/// The statement that switches the game mode.
pub open spec fn looks_gamemode_text(pad: Seq<char>, gamemode: Seq<char>) -> Seq<char> {
    pad + "player.changeGameMode(GameMode."@ + gamemode + ");"@
}

/// Emits the statement that switches the game mode.
pub fn looks_gamemode(pad: &str, gamemode: &str) -> (text: String)
    ensures
        text@ == looks_gamemode_text(pad@, gamemode@),
{
    let mut text = String::from_str(pad);
    text.append("player.changeGameMode(GameMode.");
    text.append(gamemode);
    text.append(");");
    text
}

/// The statement that plays the record `disc`.
pub open spec fn sound_music_disc_text(pad: Seq<char>, disc: Seq<char>) -> Seq<char> {
    pad + "world.playSound(null, pos.x, pos.y, pos.z,\n"@
        + pad + "    Registries.SOUND_EVENT.get(Identifier.tryParse(\""@ + disc + "\")),\n"@
        + pad + "    SoundCategory.RECORDS, 1.0f, 1.0f);"@
}

/// Emits the statement that plays a music disc.
pub fn sound_music_disc(pad: &str, disc: &str) -> (text: String)
    ensures
        text@ == sound_music_disc_text(pad@, disc@),
{
    let mut text = String::from_str(pad);
    text.append("world.playSound(null, pos.x, pos.y, pos.z,\n");
    text.append(pad);
    text.append("    Registries.SOUND_EVENT.get(Identifier.tryParse(\"");
    text.append(disc);
    text.append("\")),\n");
    text.append(pad);
    text.append("    SoundCategory.RECORDS, 1.0f, 1.0f);");
    text
}

/// The statements that stop all sounds for the player.
pub open spec fn sound_stop_all_text(pad: Seq<char>) -> Seq<char> {
    pad + "// Stop all sounds for player\n"@
        + pad + "player.networkHandler.sendPacket(new net.minecraft.network.packet.s2c.play.StopSoundS2CPacket(\n"@
        + pad + "    null, null));"@
}

/// Emits the statements that stop all sounds.
pub fn sound_stop_all(pad: &str) -> (text: String)
    ensures
        text@ == sound_stop_all_text(pad@),
{
    let mut text = String::from_str(pad);
    text.append("// Stop all sounds for player\n");
    text.append(pad);
    text.append("player.networkHandler.sendPacket(new net.minecraft.network.packet.s2c.play.StopSoundS2CPacket(\n");
    text.append(pad);
    text.append("    null, null));");
    text
}

/// The statements that shoot a fireball along the view direction.
pub open spec fn custom_projectile_text(pad: Seq<char>, projectile: Seq<char>, speed: Seq<char>) -> Seq<char> {
    pad + "// Shoot "@ + projectile + " projectile\n"@
        + pad + "Vec3d direction = player.getRotationVector();\n"@
        + pad + "Vec3d velocity = new Vec3d(direction.x * "@ + speed + ", direction.y * "@ + speed + ", direction.z * "@ + speed + ");\n"@
        + pad + "var projectileEntity = new net.minecraft.entity.projectile.FireballEntity(world, player, velocity, 1);\n"@
        + pad + "projectileEntity.setPosition(pos.x, pos.y + 1.5, pos.z);\n"@
        + pad + "world.spawnEntity(projectileEntity);"@
}

/// Emits the statements that shoot a projectile.
pub fn custom_projectile(pad: &str, projectile: &str, speed: &str) -> (text: String)
    ensures
        text@ == custom_projectile_text(pad@, projectile@, speed@),
{
    let mut text = String::from_str(pad);
    text.append("// Shoot ");
    text.append(projectile);
    text.append(" projectile\n");
    text.append(pad);
    text.append("Vec3d direction = player.getRotationVector();\n");
    text.append(pad);
    text.append("Vec3d velocity = new Vec3d(direction.x * ");
    text.append(speed);
    text.append(", direction.y * ");
    text.append(speed);
    text.append(", direction.z * ");
    text.append(speed);
    text.append(");\n");
    text.append(pad);
    text.append("var projectileEntity = new net.minecraft.entity.projectile.FireballEntity(world, player, velocity, 1);\n");
    text.append(pad);
    text.append("projectileEntity.setPosition(pos.x, pos.y + 1.5, pos.z);\n");
    text.append(pad);
    text.append("world.spawnEntity(projectileEntity);");
    text
}

/// What an area effect does to one entity when it pushes it away.
pub open spec fn effect_push_text(power: Seq<char>) -> Seq<char> {
    "Vec3d away = e.getPos().subtract(pos).normalize().multiply("@ + power + ");\\ne.setVelocity(away);\\ne.velocityModified = true;"@
}

/// Emits the per-entity code of a pushing area effect.
pub fn effect_push(power: &str) -> (text: String)
    ensures
        text@ == effect_push_text(power@),
{
    let mut text = String::from_str("Vec3d away = e.getPos().subtract(pos).normalize().multiply(");
    text.append(power);
    text.append(");\\ne.setVelocity(away);\\ne.velocityModified = true;");
    text
}

/// What an area effect does to one entity when it pulls it closer.
pub open spec fn effect_pull_text(power: Seq<char>) -> Seq<char> {
    "Vec3d toward = pos.subtract(e.getPos()).normalize().multiply("@ + power + ");\\ne.setVelocity(toward);\\ne.velocityModified = true;"@
}

/// Emits the per-entity code of a pulling area effect.
pub fn effect_pull(power: &str) -> (text: String)
    ensures
        text@ == effect_pull_text(power@),
{
    let mut text = String::from_str("Vec3d toward = pos.subtract(e.getPos()).normalize().multiply(");
    text.append(power);
    text.append(");\\ne.setVelocity(toward);\\ne.velocityModified = true;");
    text
}

/// What an area effect does to one entity when it damages it.
pub open spec fn effect_damage_text(power: Seq<char>) -> Seq<char> {
    "e.damage(world.getDamageSources().generic(), "@ + power + "f);"@
}

/// Emits the per-entity code of a damaging area effect.
pub fn effect_damage(power: &str) -> (text: String)
    ensures
        text@ == effect_damage_text(power@),
{
    let mut text = String::from_str("e.damage(world.getDamageSources().generic(), ");
    text.append(power);
    text.append("f);");
    text
}

/// What an area effect does to one entity when it heals it.
pub open spec fn effect_heal_text(power: Seq<char>) -> Seq<char> {
    "if (e instanceof LivingEntity) ((LivingEntity)e).heal("@ + power + "f);"@
}

/// Emits the per-entity code of a healing area effect.
pub fn effect_heal(power: &str) -> (text: String)
    ensures
        text@ == effect_heal_text(power@),
{
    let mut text = String::from_str("if (e instanceof LivingEntity) ((LivingEntity)e).heal(");
    text.append(power);
    text.append("f);");
    text
}

/// The statements of an area effect: every entity within `radius` of the
/// player runs `effect_code`.
pub open spec fn area_effect_text(pad: Seq<char>, effect_type: Seq<char>, radius: int, power: Seq<char>, effect_code: Seq<char>) -> Seq<char> {
    pad + "// Area effect: "@ + effect_type + " (radius: "@ + decimal(radius) + ", power: "@ + power + ")\n"@
        + pad + "world.getOtherEntities(player, player.getBoundingBox().expand("@ + decimal(radius) + "),\n"@
        + pad + "    e -> e.squaredDistanceTo(player) <= "@ + decimal(radius) + " * "@ + decimal(radius) + ")\n"@
        + pad + "    .forEach(e -> { "@ + effect_code + " });"@
}

/// Emits the statements of an area effect around the given per-entity code.
pub fn area_effect(pad: &str, effect_type: &str, radius: i32, power: &str, effect_code: &str) -> (text: String)
    ensures
        text@ == area_effect_text(pad@, effect_type@, radius as int, power@, effect_code@),
{
    let mut text = String::from_str(pad);
    text.append("// Area effect: ");
    text.append(effect_type);
    text.append(" (radius: ");
    append_decimal(&mut text, radius);
    text.append(", power: ");
    text.append(power);
    text.append(")\n");
    text.append(pad);
    text.append("world.getOtherEntities(player, player.getBoundingBox().expand(");
    append_decimal(&mut text, radius);
    text.append("),\n");
    text.append(pad);
    text.append("    e -> e.squaredDistanceTo(player) <= ");
    append_decimal(&mut text, radius);
    text.append(" * ");
    append_decimal(&mut text, radius);
    text.append(")\n");
    text.append(pad);
    text.append("    .forEach(e -> { ");
    text.append(effect_code);
    text.append(" });");
    text
}

/// The statements that teleport the player onto the block looked at, at most
/// `distance` blocks away.
pub open spec fn teleport_look_text(pad: Seq<char>, distance: int) -> Seq<char> {
    pad + "// Teleport to where player is looking\n"@
        + pad + "var hitResult = player.raycast("@ + decimal(distance) + ", 0, false);\n"@
        + pad + "if (hitResult.getType() == net.minecraft.util.hit.HitResult.Type.BLOCK) {\n"@
        + pad + "    var blockHit = (net.minecraft.util.hit.BlockHitResult)hitResult;\n"@
        + pad + "    player.teleport(blockHit.getBlockPos().getX(), \n"@
        + pad + "        blockHit.getBlockPos().getY() + 1, \n"@
        + pad + "        blockHit.getBlockPos().getZ());\n"@
        + pad + "}"@
}

/// Emits the statements that teleport the player to the block looked at.
pub fn teleport_look(pad: &str, distance: i32) -> (text: String)
    ensures
        text@ == teleport_look_text(pad@, distance as int),
{
    let mut text = String::from_str(pad);
    text.append("// Teleport to where player is looking\n");
    text.append(pad);
    text.append("var hitResult = player.raycast(");
    append_decimal(&mut text, distance);
    text.append(", 0, false);\n");
    text.append(pad);
    text.append("if (hitResult.getType() == net.minecraft.util.hit.HitResult.Type.BLOCK) {\n");
    text.append(pad);
    text.append("    var blockHit = (net.minecraft.util.hit.BlockHitResult)hitResult;\n");
    text.append(pad);
    text.append("    player.teleport(blockHit.getBlockPos().getX(), \n");
    text.append(pad);
    text.append("        blockHit.getBlockPos().getY() + 1, \n");
    text.append(pad);
    text.append("        blockHit.getBlockPos().getZ());\n");
    text.append(pad);
    text.append("}");
    text
}

/// The first line of a counting loop that runs `times` times.
pub open spec fn repeat_header_text(pad: Seq<char>, times: int) -> Seq<char> {
    pad + "for (int i = 0; i < "@ + decimal(times) + "; i++) {\n"@
}

/// Emits the first line of a counting loop.
pub fn repeat_header(pad: &str, times: i32) -> (text: String)
    ensures
        text@ == repeat_header_text(pad@, times as int),
{
    let mut text = String::from_str(pad);
    text.append("for (int i = 0; i < ");
    append_decimal(&mut text, times);
    text.append("; i++) {\n");
    text
}

/// The statements that pause for `seconds` seconds.
pub open spec fn wait_text(pad: Seq<char>, seconds: Seq<char>) -> Seq<char> {
    pad + "// Wait "@ + seconds + " seconds\n"@
        + pad + "try {\n"@
        + pad + "    Thread.sleep((long) ("@ + seconds + " * 1000));\n"@
        + pad + "} catch (InterruptedException e) {\n"@
        + pad + "    Thread.currentThread().interrupt();\n"@
        + pad + "}"@
}

/// Emits the statements that pause the thread.
pub fn wait(pad: &str, seconds: &str) -> (text: String)
    ensures
        text@ == wait_text(pad@, seconds@),
{
    let mut text = String::from_str(pad);
    text.append("// Wait ");
    text.append(seconds);
    text.append(" seconds\n");
    text.append(pad);
    text.append("try {\n");
    text.append(pad);
    text.append("    Thread.sleep((long) (");
    text.append(seconds);
    text.append(" * 1000));\n");
    text.append(pad);
    text.append("} catch (InterruptedException e) {\n");
    text.append(pad);
    text.append("    Thread.currentThread().interrupt();\n");
    text.append(pad);
    text.append("}");
    text
}

/// The first line of a conditional guarded by the expression `condition`.
pub open spec fn if_header_text(pad: Seq<char>, condition: Seq<char>) -> Seq<char> {
    pad + "if ("@ + condition + ") {\n"@
}

/// Emits the first line of a conditional.
pub fn if_header(pad: &str, condition: &str) -> (text: String)
    ensures
        text@ == if_header_text(pad@, condition@),
{
    let mut text = String::from_str(pad);
    text.append("if (");
    text.append(condition);
    text.append(") {\n");
    text
}

/// The statements that strike lightning at the position.
pub open spec fn world_lightning_text(pad: Seq<char>) -> Seq<char> {
    pad + "// Strike lightning at player\n"@
        + pad + "EntityType.LIGHTNING_BOLT.spawn((ServerWorld) world, pos, net.minecraft.entity.SpawnReason.TRIGGERED);"@
}

/// Emits the statements that strike lightning.
pub fn world_lightning(pad: &str) -> (text: String)
    ensures
        text@ == world_lightning_text(pad@),
{
    let mut text = String::from_str(pad);
    text.append("// Strike lightning at player\n");
    text.append(pad);
    text.append("EntityType.LIGHTNING_BOLT.spawn((ServerWorld) world, pos, net.minecraft.entity.SpawnReason.TRIGGERED);");
    text
}

/// The statements that fill a cube of half-width `size` round the position
/// with `block`.
pub open spec fn world_fill_text(pad: Seq<char>, size: int, block: Seq<char>) -> Seq<char> {
    pad + "// Fill "@ + decimal(size) + " block radius with "@ + block + "\n"@
        + pad + "for (int dx = -"@ + decimal(size) + "; dx <= "@ + decimal(size) + "; dx++) {\n"@
        + pad + "    for (int dy = -"@ + decimal(size) + "; dy <= "@ + decimal(size) + "; dy++) {\n"@
        + pad + "        for (int dz = -"@ + decimal(size) + "; dz <= "@ + decimal(size) + "; dz++) {\n"@
        + pad + "            var fillPos = pos.add(dx, dy, dz);\n"@
        + pad + "            world.setBlockState(fillPos, Registries.BLOCK.get(Identifier.tryParse(\""@ + block + "\")).getDefaultState());\n"@
        + pad + "        }\n"@
        + pad + "    }\n"@
        + pad + "}"@
}

/// Emits the statements that fill a cube with a block.
pub fn world_fill(pad: &str, size: i32, block: &str) -> (text: String)
    ensures
        text@ == world_fill_text(pad@, size as int, block@),
{
    let mut text = String::from_str(pad);
    text.append("// Fill ");
    append_decimal(&mut text, size);
    text.append(" block radius with ");
    text.append(block);
    text.append("\n");
    text.append(pad);
    text.append("for (int dx = -");
    append_decimal(&mut text, size);
    text.append("; dx <= ");
    append_decimal(&mut text, size);
    text.append("; dx++) {\n");
    text.append(pad);
    text.append("    for (int dy = -");
    append_decimal(&mut text, size);
    text.append("; dy <= ");
    append_decimal(&mut text, size);
    text.append("; dy++) {\n");
    text.append(pad);
    text.append("        for (int dz = -");
    append_decimal(&mut text, size);
    text.append("; dz <= ");
    append_decimal(&mut text, size);
    text.append("; dz++) {\n");
    text.append(pad);
    text.append("            var fillPos = pos.add(dx, dy, dz);\n");
    text.append(pad);
    text.append("            world.setBlockState(fillPos, Registries.BLOCK.get(Identifier.tryParse(\"");
    text.append(block);
    text.append("\")).getDefaultState());\n");
    text.append(pad);
    text.append("        }\n");
    text.append(pad);
    text.append("    }\n");
    text.append(pad);
    text.append("}");
    text
}

/// The statements that report at run time that no model has the id
/// `model_id`.
pub open spec fn model_missing_text(pad: Seq<char>, model_id: Seq<char>) -> Seq<char> {
    pad + "// ERROR: AI model not found: "@ + model_id + "\n"@
        + pad + "source.sendMessage(Text.literal(\"Model not found: "@ + model_id + "\").formatted(Formatting.RED));"@
}

/// Emits the statements that report a missing model.
pub fn model_missing(pad: &str, model_id: &str) -> (text: String)
    ensures
        text@ == model_missing_text(pad@, model_id@),
{
    let mut text = String::from_str(pad);
    text.append("// ERROR: AI model not found: ");
    text.append(model_id);
    text.append("\n");
    text.append(pad);
    text.append("source.sendMessage(Text.literal(\"Model not found: ");
    text.append(model_id);
    text.append("\").formatted(Formatting.RED));");
    text
}

/// The closing line of a block.
pub open spec fn block_footer_text(pad: Seq<char>) -> Seq<char> {
    pad + "}"@
}

/// Emits the closing line of a block.
pub fn block_footer(pad: &str) -> (text: String)
    ensures
        text@ == block_footer_text(pad@),
{
    let mut text = String::from_str(pad);
    text.append("}");
    text
}

/// The opening lines of a task that a timer runs every 50 milliseconds,
/// under a comment that warns of the endless repetition.
pub open spec fn forever_header_text(pad: Seq<char>) -> Seq<char> {
    pad + "// WARNING: Repeat forever - use with caution!\n"@
        + pad + "new java.util.Timer().scheduleAtFixedRate(new java.util.TimerTask() {\n"@
        + pad + "    @Override\n"@
        + pad + "    public void run() {\n"@
}

/// Emits the opening lines of an endlessly repeated task.
pub fn forever_header(pad: &str) -> (text: String)
    ensures
        text@ == forever_header_text(pad@),
{
    let mut text = String::from_str(pad);
    text.append("// WARNING: Repeat forever - use with caution!\n");
    text.append(pad);
    text.append("new java.util.Timer().scheduleAtFixedRate(new java.util.TimerTask() {\n");
    text.append(pad);
    text.append("    @Override\n");
    text.append(pad);
    text.append("    public void run() {\n");
    text
}

/// The closing lines of an endlessly repeated task.
pub open spec fn forever_footer_text(pad: Seq<char>) -> Seq<char> {
    pad + "    }\n"@
        + pad + "}, 0, 50);"@
}

/// Emits the closing lines of an endlessly repeated task.
pub fn forever_footer(pad: &str) -> (text: String)
    ensures
        text@ == forever_footer_text(pad@),
{
    let mut text = String::from_str(pad);
    text.append("    }\n");
    text.append(pad);
    text.append("}, 0, 50);");
    text
}

/// The comment that names the model and the statement that announces how
/// many blocks will be spawned.
pub open spec fn spawn_header_text(pad: Seq<char>, name: Seq<char>, count: int) -> Seq<char> {
    pad + "// Spawn AI model: "@ + name + "\n"@
        + pad + "source.sendMessage(Text.literal(\"Spawning "@ + decimal(count) + " blocks for model: "@ + name + "\"));\n"@
}

/// Emits the lines that announce the spawning of a model.
pub fn spawn_header(pad: &str, name: &str, count: usize) -> (text: String)
    ensures
        text@ == spawn_header_text(pad@, name@, count as int),
{
    let mut text = String::from_str(pad);
    text.append("// Spawn AI model: ");
    text.append(name);
    text.append("\n");
    text.append(pad);
    text.append("source.sendMessage(Text.literal(\"Spawning ");
    append_count(&mut text, count);
    text.append(" blocks for model: ");
    text.append(name);
    text.append("\"));\n");
    text
}

/// The call of the helper method that spawns part `part` of the model whose
/// sanitized id is `symbol`.
pub open spec fn helper_call_text(pad: Seq<char>, symbol: Seq<char>, part: int) -> Seq<char> {
    pad + "spawnModel_"@ + symbol + "_part"@ + decimal(part) + "(source, pos);\n"@
}

/// Emits the call of one helper method.
pub fn helper_call(pad: &str, symbol: &str, part: usize) -> (text: String)
    ensures
        text@ == helper_call_text(pad@, symbol@, part as int),
{
    let mut text = String::from_str(pad);
    text.append("spawnModel_");
    text.append(symbol);
    text.append("_part");
    append_count(&mut text, part);
    text.append("(source, pos);\n");
    text
}

/// The statement that reports success after the helper calls.
pub open spec fn spawn_success_text(pad: Seq<char>, count: int) -> Seq<char> {
    pad + "source.sendMessage(Text.literal(\"Successfully spawned "@ + decimal(count) + " blocks\"));\n"@
}

/// Emits the statement that reports success after the helper calls.
pub fn spawn_success(pad: &str, count: usize) -> (text: String)
    ensures
        text@ == spawn_success_text(pad@, count as int),
{
    let mut text = String::from_str(pad);
    text.append("source.sendMessage(Text.literal(\"Successfully spawned ");
    append_count(&mut text, count);
    text.append(" blocks\"));\n");
    text
}

/// The line that opens the guarded block of an inline spawn.
pub open spec fn inline_header_text(pad: Seq<char>) -> Seq<char> {
    pad + "try {\n"@
}

/// Emits the line that opens the guarded block of an inline spawn.
pub fn inline_header(pad: &str) -> (text: String)
    ensures
        text@ == inline_header_text(pad@),
{
    let mut text = String::from_str(pad);
    text.append("try {\n");
    text
}

/// The display-entity data of one block: identity rotations, no translation,
/// the scale triple and the block state name, written so that it can stand
/// inside a Java string literal.
pub open spec fn transform_literal_text(sx: Seq<char>, sy: Seq<char>, sz: Seq<char>, block_name: Seq<char>) -> Seq<char> {
    "{transformation:{left_rotation:[0f,0f,0f,1f],right_rotation:[0f,0f,0f,1f],translation:[0f,0f,0f],scale:["@ + sx + "f,"@ + sy + "f,"@ + sz + "f]},block_state:{Name:\\\""@ + block_name + "\\\"}}"@
}

/// Emits the display-entity data of one block.
pub fn transform_literal(sx: &str, sy: &str, sz: &str, block_name: &str) -> (text: String)
    ensures
        text@ == transform_literal_text(sx@, sy@, sz@, block_name@),
{
    let mut text = String::from_str("{transformation:{left_rotation:[0f,0f,0f,1f],right_rotation:[0f,0f,0f,1f],translation:[0f,0f,0f],scale:[");
    text.append(sx);
    text.append("f,");
    text.append(sy);
    text.append("f,");
    text.append(sz);
    text.append("f]},block_state:{Name:\\\"");
    text.append(block_name);
    text.append("\\\"}}");
    text
}

/// The statement that summons one block display at the offset `(x, y, z)`
/// from the position, with the data `nbt`.
pub open spec fn spawn_statement_text(pad: Seq<char>, x: Seq<char>, y: Seq<char>, z: Seq<char>, nbt: Seq<char>) -> Seq<char> {
    pad + "    source.getServer().getCommandManager().executeWithPrefix(\n"@
        + pad + "        source.getServer().getCommandSource(),\n"@
        + pad + "        String.format(\"summon minecraft:block_display %.2f %.2f %.2f %s\",\n"@
        + pad + "            pos.x + "@ + x + ", pos.y + "@ + y + ", pos.z + "@ + z + ", \""@ + nbt + "\")\n"@
        + pad + "    );\n"@
}

/// Emits the statement that summons one block display.
pub fn spawn_statement(pad: &str, x: &str, y: &str, z: &str, nbt: &str) -> (text: String)
    ensures
        text@ == spawn_statement_text(pad@, x@, y@, z@, nbt@),
{
    let mut text = String::from_str(pad);
    text.append("    source.getServer().getCommandManager().executeWithPrefix(\n");
    text.append(pad);
    text.append("        source.getServer().getCommandSource(),\n");
    text.append(pad);
    text.append("        String.format(\"summon minecraft:block_display %.2f %.2f %.2f %s\",\n");
    text.append(pad);
    text.append("            pos.x + ");
    text.append(x);
    text.append(", pos.y + ");
    text.append(y);
    text.append(", pos.z + ");
    text.append(z);
    text.append(", \"");
    text.append(nbt);
    text.append("\")\n");
    text.append(pad);
    text.append("    );\n");
    text
}

/// The lines that close an inline spawn: the success report and the handler
/// that reports a failure.
pub open spec fn inline_footer_text(pad: Seq<char>, count: int) -> Seq<char> {
    pad + "    source.sendMessage(Text.literal(\"Successfully spawned "@ + decimal(count) + " blocks\"));\n"@
        + pad + "} catch (Exception e) {\n"@
        + pad + "    source.sendMessage(Text.literal(\"Error spawning model: \" + e.getMessage()));\n"@
        + pad + "}\n"@
}

/// Emits the lines that close an inline spawn.
pub fn inline_footer(pad: &str, count: usize) -> (text: String)
    ensures
        text@ == inline_footer_text(pad@, count as int),
{
    let mut text = String::from_str(pad);
    text.append("    source.sendMessage(Text.literal(\"Successfully spawned ");
    append_count(&mut text, count);
    text.append(" blocks\"));\n");
    text.append(pad);
    text.append("} catch (Exception e) {\n");
    text.append(pad);
    text.append("    source.sendMessage(Text.literal(\"Error spawning model: \" + e.getMessage()));\n");
    text.append(pad);
    text.append("}\n");
    text
}

/// The first line of the helper method that spawns part `part` of the model
/// whose sanitized id is `symbol`.
pub open spec fn helper_header_text(symbol: Seq<char>, part: int) -> Seq<char> {
    "\n"@
        + "    private static void spawnModel_"@ + symbol + "_part"@ + decimal(part) + "(net.minecraft.server.command.ServerCommandSource source, Vec3d pos) {\n"@
}

/// Emits the first line of one helper method.
pub fn helper_header(symbol: &str, part: usize) -> (text: String)
    ensures
        text@ == helper_header_text(symbol@, part as int),
{
    let mut text = String::from_str("\n");
    text.append("    private static void spawnModel_");
    text.append(symbol);
    text.append("_part");
    append_count(&mut text, part);
    text.append("(net.minecraft.server.command.ServerCommandSource source, Vec3d pos) {\n");
    text
}

/// The lines that register the command `name` and open its body.
pub open spec fn command_header_text(name: Seq<char>) -> Seq<char> {
    "\n"@
        + "        CommandRegistrationCallback.EVENT.register((dispatcher, registryAccess, environment) -> {\n"@
        + "dispatcher.register(CommandManager.literal(\""@ + name + "\").executes(context -> {\n"@
        + "var source = context.getSource();\n"@
        + "ServerWorld world = source.getWorld();\n"@
        + "Vec3d pos = source.getPosition();\n"@
        + "\n"@
}

/// Emits the lines that register a command and open its body.
pub fn command_header(name: &str) -> (text: String)
    ensures
        text@ == command_header_text(name@),
{
    let mut text = String::from_str("\n");
    text.append("        CommandRegistrationCallback.EVENT.register((dispatcher, registryAccess, environment) -> {\n");
    text.append("dispatcher.register(CommandManager.literal(\"");
    text.append(name);
    text.append("\").executes(context -> {\n");
    text.append("var source = context.getSource();\n");
    text.append("ServerWorld world = source.getWorld();\n");
    text.append("Vec3d pos = source.getPosition();\n");
    text.append("\n");
    text
}

/// The lines that end a command with the success marker.
pub open spec fn command_footer_text() -> Seq<char> {
    "                return 1;\n"@
        + "}));\n"@
        + "});\n"@
}

/// Emits the lines that end a command.
pub fn command_footer() -> (text: String)
    ensures
        text@ == command_footer_text(),
{
    let mut text = String::from_str("                return 1;\n");
    text.append("}));\n");
    text.append("});\n");
    text
}

/// The lines that match a use of the item `item` on the server side and open
/// the handler body.
pub open spec fn event_header_text(item: Seq<char>) -> Seq<char> {
    "\n"@
        + "        UseItemCallback.EVENT.register((player, world, hand) -> {\n"@
        + "ItemStack stack = player.getStackInHand(hand);\n"@
        + "if (stack.getItem() == Registries.ITEM.get(Identifier.tryParse(\""@ + item + "\"))) {\n"@
        + "if (!world.isClient) {\n"@
        + "ServerWorld serverWorld = (ServerWorld) world;\n"@
        + "Vec3d pos = player.getPos();\n"@
        + "\n"@
}

/// Emits the lines that open a right-click handler.
pub fn event_header(item: &str) -> (text: String)
    ensures
        text@ == event_header_text(item@),
{
    let mut text = String::from_str("\n");
    text.append("        UseItemCallback.EVENT.register((player, world, hand) -> {\n");
    text.append("ItemStack stack = player.getStackInHand(hand);\n");
    text.append("if (stack.getItem() == Registries.ITEM.get(Identifier.tryParse(\"");
    text.append(item);
    text.append("\"))) {\n");
    text.append("if (!world.isClient) {\n");
    text.append("ServerWorld serverWorld = (ServerWorld) world;\n");
    text.append("Vec3d pos = player.getPos();\n");
    text.append("\n");
    text
}

/// The lines that end a right-click handler: handled for the item, passed
/// on for any other.
pub open spec fn event_footer_text() -> Seq<char> {
    "                }\n"@
        + "return TypedActionResult.success(stack);\n"@
        + "}\n"@
        + "return TypedActionResult.pass(stack);\n"@
        + "});\n"@
}

/// Emits the lines that end a right-click handler.
pub fn event_footer() -> (text: String)
    ensures
        text@ == event_footer_text(),
{
    let mut text = String::from_str("                }\n");
    text.append("return TypedActionResult.success(stack);\n");
    text.append("}\n");
    text.append("return TypedActionResult.pass(stack);\n");
    text.append("});\n");
    text
}

} // verus!
