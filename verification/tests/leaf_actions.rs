use blockcraft::emit::generate_action_java;
use blockcraft::model::{Action, ModData};

fn render(action: &Action, indent: usize) -> String {
    let mod_data = ModData {
        custom_items: Vec::new(),
        custom_mobs: Vec::new(),
        commands: Vec::new(),
        right_click_events: Vec::new(),
        block_display_models: Vec::new(),
    };
    generate_action_java(action, indent, &mod_data)
}

#[test]
fn title_escapes_quotes() {
    let action = Action::Title { title: "Hello \"World\"".to_string() };
    assert_eq!(render(&action, 1), "    source.sendFeedback(() -> Text.literal(\"Hello \\\"World\\\"\"), false);");
}

#[test]
fn spawn_mob_statements() {
    let action = Action::SpawnMob { mob: "minecraft:zombie".to_string() };
    assert_eq!(render(&action, 2), "        // Spawn mob: minecraft:zombie\n        EntityType<?> entityType = Registries.ENTITY_TYPE.get(Identifier.tryParse(\"minecraft:zombie\"));\n        if (entityType != null) {\n            Entity entity = entityType.create(world);\n            if (entity != null) {\n                entity.refreshPositionAndAngles(pos.getX(), pos.getY() + 10, pos.getZ(), 0, 0);\n                world.spawnEntity(entity);\n            }\n        }");
}

#[test]
fn message_escapes_quotes() {
    let action = Action::Message { message: "say \"x\" and \"y\"".to_string() };
    assert_eq!(render(&action, 1), "    source.sendMessage(Text.literal(\"say \\\"x\\\" and \\\"y\\\"\"));");
}

#[test]
fn give_item_statements() {
    let action = Action::GiveItem { item: "minecraft:diamond".to_string(), amount: 64 };
    assert_eq!(render(&action, 1), "    // Give item: minecraft:diamond x64\n    if (source.getPlayer() != null) {\n        ItemStack itemStack = new ItemStack(Registries.ITEM.get(Identifier.tryParse(\"minecraft:diamond\")), 64);\n        source.getPlayer().giveItemStack(itemStack);\n    }");
}

#[test]
fn play_sound_statements() {
    let action = Action::PlaySound { sound: "minecraft:entity.cat.ambient".to_string() };
    assert_eq!(render(&action, 1), "    // Play sound: minecraft:entity.cat.ambient\n    world.playSound(null, pos.x, pos.y, pos.z, \n        Registries.SOUND_EVENT.get(Identifier.tryParse(\"minecraft:entity.cat.ambient\")),\n        SoundCategory.PLAYERS, 1.0f, 1.0f);");
}

#[test]
fn actionbar_escapes_only_the_literal() {
    let action = Action::Actionbar { text: "a \"b\"".to_string() };
    assert_eq!(render(&action, 1), "    // Show action bar: a \"b\"\n    if (source.getPlayer() != null) {\n        source.getPlayer().sendMessage(Text.literal(\"a \\\"b\\\"\"), true);\n    }");
}

#[test]
fn player_effect_lowers_the_key() {
    let action = Action::PlayerEffect { effect: "SPEED".to_string(), duration: 30 };
    assert_eq!(render(&action, 1), "    // Apply effect: SPEED for 30 seconds\n    var effectOptional = net.minecraft.registry.Registries.STATUS_EFFECT.getEntry(\n        net.minecraft.registry.RegistryKey.of(\n            net.minecraft.registry.RegistryKeys.STATUS_EFFECT,\n            net.minecraft.util.Identifier.of(\"minecraft\", \"speed\")));\n    if (effectOptional.isPresent()) {\n        player.addStatusEffect(new net.minecraft.entity.effect.StatusEffectInstance(\n            effectOptional.get(), 30 * 20, 0));\n    }");
}

#[test]
fn player_health_statement() {
    let action = Action::PlayerHealth { health: 20 };
    assert_eq!(render(&action, 1), "    player.setHealth(20.0f);");
}

#[test]
fn player_health_negative() {
    let action = Action::PlayerHealth { health: -5 };
    assert_eq!(render(&action, 1), "    player.setHealth(-5.0f);");
}

#[test]
fn world_place_block_statement() {
    let action = Action::WorldPlaceBlock { block: "minecraft:stone".to_string() };
    assert_eq!(render(&action, 1), "    world.setBlockState(player.getBlockPos(), \n        Registries.BLOCK.get(Identifier.tryParse(\"minecraft:stone\")).getDefaultState());");
}

#[test]
fn world_time_statement() {
    let action = Action::WorldTime { time: "6000".to_string() };
    assert_eq!(render(&action, 1), "    world.setTimeOfDay(6000);");
}

#[test]
fn world_explosion_statement() {
    let action = Action::WorldExplosion { power: "4".to_string() };
    assert_eq!(render(&action, 1), "    world.createExplosion(null, pos.x, pos.y, pos.z, 4f, World.ExplosionSourceType.NONE);");
}

#[test]
fn world_lightning_statements() {
    let action = Action::WorldLightning {};
    assert_eq!(render(&action, 1), "    // Strike lightning at player\n    EntityType.LIGHTNING_BOLT.spawn((ServerWorld) world, pos, net.minecraft.entity.SpawnReason.TRIGGERED);");
}

#[test]
fn world_fill_statements() {
    let action = Action::WorldFill { size: 3, block: "minecraft:glass".to_string() };
    assert_eq!(render(&action, 0), "// Fill 3 block radius with minecraft:glass\nfor (int dx = -3; dx <= 3; dx++) {\n    for (int dy = -3; dy <= 3; dy++) {\n        for (int dz = -3; dz <= 3; dz++) {\n            var fillPos = pos.add(dx, dy, dz);\n            world.setBlockState(fillPos, Registries.BLOCK.get(Identifier.tryParse(\"minecraft:glass\")).getDefaultState());\n        }\n    }\n}");
}

#[test]
fn world_entity_follow_statements() {
    let action = Action::WorldEntityFollow { entity: "wolf".to_string(), range: 10, duration: 5 };
    assert_eq!(render(&action, 1), "    // Make wolf follow player for 5 seconds within 10 blocks\n    new Thread(() -> {\n        for (int i = 0; i < 5 * 20; i++) {\n            try {\n                Thread.sleep(50);\n                ((ServerWorld)world).getServer().execute(() -> {\n                    var followingEntities = world.getEntitiesByClass(net.minecraft.entity.mob.MobEntity.class, \n                        player.getBoundingBox().expand(10), e -> e.getType().toString().contains(\"wolf\"));\n                    followingEntities.forEach(e -> {\n                        if (e.squaredDistanceTo(player) <= 10 * 10) {\n                            e.getNavigation().startMovingTo(player, 1.0);\n                        }\n                    });\n                });\n            } catch (InterruptedException ex) { break; }\n        }\n    }).start();");
}

#[test]
fn world_entity_attack_statements() {
    let action = Action::WorldEntityAttack { entity: "zombie".to_string(), range: 8 };
    assert_eq!(render(&action, 1), "    // Make zombie attack player within 8 blocks\n    world.getEntitiesByClass(net.minecraft.entity.mob.MobEntity.class, \n        player.getBoundingBox().expand(8), e -> e.getType().toString().contains(\"zombie\"))\n        .forEach(e -> e.setTarget(player));");
}

#[test]
fn world_entity_tame_statements() {
    let action = Action::WorldEntityTame { entity: "cat".to_string(), range: 6 };
    assert_eq!(render(&action, 1), "    // Tame cat within 6 blocks\n    world.getEntitiesByClass(net.minecraft.entity.passive.TameableEntity.class, \n        player.getBoundingBox().expand(6), e -> e.getType().toString().contains(\"cat\"))\n        .forEach(e -> { e.setOwner(player); e.setTamed(true); });");
}

#[test]
fn motion_move_forward_statements() {
    let action = Action::MotionMoveForward { distance: "2.5".to_string() };
    assert_eq!(render(&action, 1), "    Vec3d forward = player.getRotationVector().multiply(2.5);\n    player.teleport(pos.x + forward.x, pos.y, pos.z + forward.z);");
}

#[test]
fn motion_teleport_statement() {
    let action = Action::MotionTeleport { x: "1.5".to_string(), y: "64".to_string(), z: "-3".to_string() };
    assert_eq!(render(&action, 1), "    player.teleport(1.5, 64, -3);");
}

#[test]
fn motion_teleport_forward_statements() {
    let action = Action::MotionTeleportForward { distance: 7 };
    assert_eq!(render(&action, 1), "    // Teleport 7 blocks forward\n    Vec3d forward = player.getRotationVector().multiply(7);\n    player.teleport(pos.x + forward.x, pos.y, pos.z + forward.z);");
}

#[test]
fn motion_teleport_up() {
    let action = Action::MotionTeleportVertical { distance: 5, direction: "UP".to_string() };
    assert_eq!(render(&action, 1), "    // Teleport 5 blocks up\n    player.teleport(pos.x, pos.y + 5, pos.z);");
}

#[test]
fn motion_teleport_down() {
    let action = Action::MotionTeleportVertical { distance: 5, direction: "DOWN".to_string() };
    assert_eq!(render(&action, 1), "    // Teleport 5 blocks down\n    player.teleport(pos.x, pos.y + -5, pos.z);");
}

#[test]
fn motion_teleport_unknown_direction_goes_up() {
    let action = Action::MotionTeleportVertical { distance: 5, direction: "Sideways".to_string() };
    assert_eq!(render(&action, 1), "    // Teleport 5 blocks sideways\n    player.teleport(pos.x, pos.y + 5, pos.z);");
}

#[test]
fn motion_teleport_spawn_statements() {
    let action = Action::MotionTeleportSpawn {};
    assert_eq!(render(&action, 1), "    // Teleport to world spawn\n    var spawnPos = ((ServerWorld)world).getSpawnPos();\n    player.teleport(spawnPos.getX(), spawnPos.getY(), spawnPos.getZ());");
}

#[test]
fn motion_rotate_statement() {
    let action = Action::MotionRotate { direction: "90".to_string() };
    assert_eq!(render(&action, 1), "    player.setYaw(90f);");
}

#[test]
fn motion_launch_up() {
    let action = Action::MotionLaunch { power: "1.5".to_string(), direction: "up".to_string() };
    assert_eq!(render(&action, 1), "    player.setVelocity(0, 1.5, 0);\n    player.velocityModified = true;");
}

#[test]
fn motion_launch_forward() {
    let action = Action::MotionLaunch { power: "1.5".to_string(), direction: "forward".to_string() };
    assert_eq!(render(&action, 1), "    Vec3d forward = player.getRotationVector().multiply(1.5);\n    player.setVelocity(forward);\n    player.velocityModified = true;");
}

#[test]
fn motion_launch_backward() {
    let action = Action::MotionLaunch { power: "1.5".to_string(), direction: "backward".to_string() };
    assert_eq!(render(&action, 1), "    Vec3d backward = player.getRotationVector().multiply(-1.5);\n    player.setVelocity(backward);\n    player.velocityModified = true;");
}

#[test]
fn motion_launch_sideways() {
    let action = Action::MotionLaunch { power: "1.5".to_string(), direction: "sideways".to_string() };
    assert_eq!(render(&action, 1), "    player.setVelocity(0, 1.5, 0);\n    player.velocityModified = true;");
}

#[test]
fn motion_set_axis_x() {
    let action = Action::MotionSetX { axis: "x".to_string(), value: "12.5".to_string() };
    assert_eq!(render(&action, 1), "    player.teleport(12.5, pos.y, pos.z);");
}

#[test]
fn motion_change_axis_x() {
    let action = Action::MotionChangeX { axis: "x".to_string(), value: "0.5".to_string() };
    assert_eq!(render(&action, 1), "    player.teleport(pos.x + 0.5, pos.y, pos.z);");
}

#[test]
fn motion_set_axis_y() {
    let action = Action::MotionSetX { axis: "y".to_string(), value: "12.5".to_string() };
    assert_eq!(render(&action, 1), "    player.teleport(pos.x, 12.5, pos.z);");
}

#[test]
fn motion_change_axis_y() {
    let action = Action::MotionChangeX { axis: "y".to_string(), value: "0.5".to_string() };
    assert_eq!(render(&action, 1), "    player.teleport(pos.x, pos.y + 0.5, pos.z);");
}

#[test]
fn motion_set_axis_z() {
    let action = Action::MotionSetX { axis: "z".to_string(), value: "12.5".to_string() };
    assert_eq!(render(&action, 1), "    player.teleport(pos.x, pos.y, 12.5);");
}

#[test]
fn motion_change_axis_z() {
    let action = Action::MotionChangeX { axis: "z".to_string(), value: "0.5".to_string() };
    assert_eq!(render(&action, 1), "    player.teleport(pos.x, pos.y, pos.z + 0.5);");
}

#[test]
fn motion_set_axis_w() {
    let action = Action::MotionSetX { axis: "w".to_string(), value: "12.5".to_string() };
    assert_eq!(render(&action, 1), "    player.teleport(12.5, pos.y, pos.z);");
}

#[test]
fn motion_change_axis_w() {
    let action = Action::MotionChangeX { axis: "w".to_string(), value: "0.5".to_string() };
    assert_eq!(render(&action, 1), "    player.teleport(pos.x + 0.5, pos.y, pos.z);");
}

#[test]
fn looks_subtitle_escapes_quotes() {
    let action = Action::LooksSubtitle { subtitle: "\"q\"".to_string() };
    assert_eq!(render(&action, 1), "    player.sendMessage(Text.literal(\"\\\"q\\\"\"), false);");
}

#[test]
fn looks_particles_raises_the_kind() {
    let action = Action::LooksParticles { particle: "flame".to_string(), count: 12 };
    assert_eq!(render(&action, 1), "    // Spawn 12 flame particles\n    for (int i = 0; i < 12; i++) {\n        ((ServerWorld)world).spawnParticles(net.minecraft.particle.ParticleTypes.FLAME,\n            pos.x, pos.y + 1, pos.z, 1, 0.5, 0.5, 0.5, 0.1);\n    }");
}

#[test]
fn looks_clear_effects_statement() {
    let action = Action::LooksClearEffects {};
    assert_eq!(render(&action, 1), "    player.clearStatusEffects();");
}

#[test]
fn looks_display_name_escapes_quotes() {
    let action = Action::LooksDisplayName { name: "The \"Boss\"".to_string() };
    assert_eq!(render(&action, 1), "    player.setCustomName(Text.literal(\"The \\\"Boss\\\"\"));");
}

#[test]
fn looks_gamemode_statement() {
    let action = Action::LooksGamemode { gamemode: "CREATIVE".to_string() };
    assert_eq!(render(&action, 1), "    player.changeGameMode(GameMode.CREATIVE);");
}

#[test]
fn sound_music_disc_statement() {
    let action = Action::SoundMusicDisc { disc: "minecraft:music_disc.cat".to_string() };
    assert_eq!(render(&action, 1), "    world.playSound(null, pos.x, pos.y, pos.z,\n        Registries.SOUND_EVENT.get(Identifier.tryParse(\"minecraft:music_disc.cat\")),\n        SoundCategory.RECORDS, 1.0f, 1.0f);");
}

#[test]
fn sound_stop_all_statements() {
    let action = Action::SoundStopAll {};
    assert_eq!(render(&action, 1), "    // Stop all sounds for player\n    player.networkHandler.sendPacket(new net.minecraft.network.packet.s2c.play.StopSoundS2CPacket(\n        null, null));");
}

#[test]
fn custom_projectile_statements() {
    let action = Action::CustomActionProjectile { projectile: "fireball".to_string(), speed: "1.5".to_string() };
    assert_eq!(render(&action, 1), "    // Shoot fireball projectile\n    Vec3d direction = player.getRotationVector();\n    Vec3d velocity = new Vec3d(direction.x * 1.5, direction.y * 1.5, direction.z * 1.5);\n    var projectileEntity = new net.minecraft.entity.projectile.FireballEntity(world, player, velocity, 1);\n    projectileEntity.setPosition(pos.x, pos.y + 1.5, pos.z);\n    world.spawnEntity(projectileEntity);");
}

#[test]
fn custom_particles_raises_the_kind() {
    let action = Action::CustomActionParticles { particle: "heart".to_string(), count: 3 };
    assert_eq!(render(&action, 1), "    // Spawn 3 heart particles\n    for (int i = 0; i < 3; i++) {\n        ((ServerWorld)world).spawnParticles(net.minecraft.particle.ParticleTypes.HEART,\n            pos.x, pos.y + 1, pos.z, 1, 0.5, 0.5, 0.5, 0.1);\n    }");
}

#[test]
fn area_effect_push() {
    let action = Action::CustomActionAreaEffect { effect_type: "push".to_string(), radius: 5, power: "2".to_string() };
    assert_eq!(render(&action, 1), "    // Area effect: push (radius: 5, power: 2)\n    world.getOtherEntities(player, player.getBoundingBox().expand(5),\n        e -> e.squaredDistanceTo(player) <= 5 * 5)\n        .forEach(e -> { Vec3d away = e.getPos().subtract(pos).normalize().multiply(2);\\ne.setVelocity(away);\\ne.velocityModified = true; });");
}

#[test]
fn area_effect_pull() {
    let action = Action::CustomActionAreaEffect { effect_type: "pull".to_string(), radius: 5, power: "2".to_string() };
    assert_eq!(render(&action, 1), "    // Area effect: pull (radius: 5, power: 2)\n    world.getOtherEntities(player, player.getBoundingBox().expand(5),\n        e -> e.squaredDistanceTo(player) <= 5 * 5)\n        .forEach(e -> { Vec3d toward = pos.subtract(e.getPos()).normalize().multiply(2);\\ne.setVelocity(toward);\\ne.velocityModified = true; });");
}

#[test]
fn area_effect_damage() {
    let action = Action::CustomActionAreaEffect { effect_type: "damage".to_string(), radius: 5, power: "2".to_string() };
    assert_eq!(render(&action, 1), "    // Area effect: damage (radius: 5, power: 2)\n    world.getOtherEntities(player, player.getBoundingBox().expand(5),\n        e -> e.squaredDistanceTo(player) <= 5 * 5)\n        .forEach(e -> { e.damage(world.getDamageSources().generic(), 2f); });");
}

#[test]
fn area_effect_heal() {
    let action = Action::CustomActionAreaEffect { effect_type: "heal".to_string(), radius: 5, power: "2".to_string() };
    assert_eq!(render(&action, 1), "    // Area effect: heal (radius: 5, power: 2)\n    world.getOtherEntities(player, player.getBoundingBox().expand(5),\n        e -> e.squaredDistanceTo(player) <= 5 * 5)\n        .forEach(e -> { if (e instanceof LivingEntity) ((LivingEntity)e).heal(2f); });");
}

#[test]
fn area_effect_ignite() {
    let action = Action::CustomActionAreaEffect { effect_type: "ignite".to_string(), radius: 5, power: "2".to_string() };
    assert_eq!(render(&action, 1), "    // Area effect: ignite (radius: 5, power: 2)\n    world.getOtherEntities(player, player.getBoundingBox().expand(5),\n        e -> e.squaredDistanceTo(player) <= 5 * 5)\n        .forEach(e -> { e.setOnFireFor(5); });");
}

#[test]
fn area_effect_freeze() {
    let action = Action::CustomActionAreaEffect { effect_type: "freeze".to_string(), radius: 5, power: "2".to_string() };
    assert_eq!(render(&action, 1), "    // Area effect: freeze (radius: 5, power: 2)\n    world.getOtherEntities(player, player.getBoundingBox().expand(5),\n        e -> e.squaredDistanceTo(player) <= 5 * 5)\n        .forEach(e -> { e.setFrozenTicks(200); });");
}

#[test]
fn area_effect_other() {
    let action = Action::CustomActionAreaEffect { effect_type: "other".to_string(), radius: 5, power: "2".to_string() };
    assert_eq!(render(&action, 1), "    // Area effect: other (radius: 5, power: 2)\n    world.getOtherEntities(player, player.getBoundingBox().expand(5),\n        e -> e.squaredDistanceTo(player) <= 5 * 5)\n        .forEach(e -> { Vec3d away = e.getPos().subtract(pos).normalize().multiply(2);\\ne.setVelocity(away);\\ne.velocityModified = true; });");
}

#[test]
fn teleport_look_statements() {
    let action = Action::CustomActionTeleportLook { distance: 50 };
    assert_eq!(render(&action, 1), "    // Teleport to where player is looking\n    var hitResult = player.raycast(50, 0, false);\n    if (hitResult.getType() == net.minecraft.util.hit.HitResult.Type.BLOCK) {\n        var blockHit = (net.minecraft.util.hit.BlockHitResult)hitResult;\n        player.teleport(blockHit.getBlockPos().getX(), \n            blockHit.getBlockPos().getY() + 1, \n            blockHit.getBlockPos().getZ());\n    }");
}

#[test]
fn wait_statements() {
    let action = Action::Wait { seconds: "1.5".to_string() };
    assert_eq!(render(&action, 1), "    // Wait 1.5 seconds\n    try {\n        Thread.sleep((long) (1.5 * 1000));\n    } catch (InterruptedException e) {\n        Thread.currentThread().interrupt();\n    }");
}

#[test]
fn missing_model_reports_at_run_time() {
    let action = Action::SpawnBlockDisplayModel { model_id: "ghost".to_string() };
    assert_eq!(render(&action, 1), "    // ERROR: AI model not found: ghost\n    source.sendMessage(Text.literal(\"Model not found: ghost\").formatted(Formatting.RED));");
}

#[test]
fn motion_launch_indents_every_line() {
    for direction in ["up", "forward", "backward", "other"] {
        for indent in 0..4 {
            let action = Action::MotionLaunch { power: "2".to_string(), direction: direction.to_string() };
            let text = render(&action, indent);
            let pad = "    ".repeat(indent);
            for line in text.split('\n') {
                assert!(line.starts_with(&pad));
                assert!(!line[pad.len()..].starts_with(' '));
            }
        }
    }
}

#[test]
fn motion_launch_forward_nested() {
    let action = Action::Repeat {
        times: 1,
        actions: vec![Action::MotionLaunch { power: "3".to_string(), direction: "forward".to_string() }],
    };
    assert_eq!(
        render(&action, 1),
        "    for (int i = 0; i < 1; i++) {\n        Vec3d forward = player.getRotationVector().multiply(3);\n        player.setVelocity(forward);\n        player.velocityModified = true;\n    }"
    );
}
