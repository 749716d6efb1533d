use blockcraft::assemble::{
    compile, compile_with, generate_commands_java, generate_model_helper_methods,
    generate_right_click_events_java,
};
use blockcraft::emit::{emit_action, generate_action_java};
use blockcraft::model::{
    Action, BlockDisplayEntity, BlockDisplayModel, BlockProperty, Command, Condition, ModData,
    RightClickEvent, Triple,
};
use blockcraft::references::{names_model, sequence_names, spawns_model};
use blockcraft::spawn::BLOCKS_PER_METHOD;

fn block(i: usize) -> BlockDisplayEntity {
    BlockDisplayEntity {
        block: "minecraft:stone".to_string(),
        properties: None,
        x: format!("{}", i),
        y: "0".to_string(),
        z: "0".to_string(),
        scale: None,
        rotation: None,
        brightness: None,
    }
}

fn model(id: &str, n: usize) -> BlockDisplayModel {
    let mut blocks = Vec::new();
    for i in 0..n {
        blocks.push(block(i));
    }
    BlockDisplayModel {
        id: id.to_string(),
        name: "Tower".to_string(),
        prompt: "a tower".to_string(),
        blocks,
        generated_by: "test".to_string(),
        created_at: 0,
    }
}

fn mod_with(commands: Vec<Command>, events: Vec<RightClickEvent>, models: Vec<BlockDisplayModel>) -> ModData {
    ModData {
        custom_items: Vec::new(),
        custom_mobs: Vec::new(),
        commands,
        right_click_events: events,
        block_display_models: models,
    }
}

fn spawning(ids: &[&str]) -> Vec<Command> {
    vec![Command {
        command: "build".to_string(),
        actions: ids.iter().map(|id| Action::SpawnBlockDisplayModel { model_id: id.to_string() }).collect(),
    }]
}

fn count(haystack: &str, needle: &str) -> usize {
    haystack.matches(needle).count()
}

fn lines(text: &str) -> usize {
    count(text, "\n") + 1
}

const COMMAND_OPEN: &str = "\n        CommandRegistrationCallback.EVENT.register((dispatcher, registryAccess, environment) -> {\ndispatcher.register(CommandManager.literal(\"hello\").executes(context -> {\nvar source = context.getSource();\nServerWorld world = source.getWorld();\nVec3d pos = source.getPosition();\n\n";
const COMMAND_CLOSE: &str = "                return 1;\n}));\n});\n";

#[test]
fn command_with_quoted_message() {
    let data = mod_with(
        vec![Command {
            command: "hello".to_string(),
            actions: vec![Action::Message { message: "hi \"there\"".to_string() }],
        }],
        Vec::new(),
        Vec::new(),
    );
    let (body, helpers) = compile(&data);
    let statement = "                source.sendMessage(Text.literal(\"hi \\\"there\\\"\"));";
    assert_eq!(body, format!("{}{}\n                \n{}", COMMAND_OPEN, statement, COMMAND_CLOSE));
    assert_eq!(count(&body, "sendMessage"), 1);
    assert!(body.contains("hi \\\"there\\\""));
    assert_eq!(helpers, "");
}

#[test]
fn command_without_actions() {
    let data = mod_with(vec![Command { command: "hello".to_string(), actions: Vec::new() }], Vec::new(), Vec::new());
    assert_eq!(generate_commands_java(&data.commands, &data), format!("{}{}", COMMAND_OPEN, COMMAND_CLOSE));
}

#[test]
fn right_click_event_wraps_its_actions() {
    let data = mod_with(
        Vec::new(),
        vec![RightClickEvent {
            item: "minecraft:stick".to_string(),
            actions: vec![Action::LooksClearEffects {}, Action::WorldLightning {}],
        }],
        Vec::new(),
    );
    let expected = "\n        UseItemCallback.EVENT.register((player, world, hand) -> {\nItemStack stack = player.getStackInHand(hand);\nif (stack.getItem() == Registries.ITEM.get(Identifier.tryParse(\"minecraft:stick\"))) {\nif (!world.isClient) {\nServerWorld serverWorld = (ServerWorld) world;\nVec3d pos = player.getPos();\n\n                    player.clearStatusEffects();\n                    \n                    // Strike lightning at player\n                    EntityType.LIGHTNING_BOLT.spawn((ServerWorld) world, pos, net.minecraft.entity.SpawnReason.TRIGGERED);\n                    \n                }\nreturn TypedActionResult.success(stack);\n}\nreturn TypedActionResult.pass(stack);\n});\n";
    assert_eq!(generate_right_click_events_java(&data.right_click_events, &data), expected);
    let (body, _) = compile(&data);
    assert_eq!(body, expected);
}

#[test]
fn body_holds_commands_before_events() {
    let data = mod_with(
        vec![Command { command: "a".to_string(), actions: Vec::new() }, Command { command: "b".to_string(), actions: Vec::new() }],
        vec![RightClickEvent { item: "minecraft:stick".to_string(), actions: Vec::new() }],
        Vec::new(),
    );
    let (body, _) = compile(&data);
    let commands = generate_commands_java(&data.commands, &data);
    let events = generate_right_click_events_java(&data.right_click_events, &data);
    assert_eq!(body, format!("{}{}", commands, events));
    let a = body.find("literal(\"a\")").unwrap();
    let b = body.find("literal(\"b\")").unwrap();
    let e = body.find("UseItemCallback").unwrap();
    assert!(a < b && b < e);
}

#[test]
fn compile_is_deterministic() {
    let data = mod_with(
        vec![Command {
            command: "build".to_string(),
            actions: vec![
                Action::SpawnBlockDisplayModel { model_id: "big".to_string() },
                Action::Repeat { times: 3, actions: vec![Action::WorldLightning {}] },
            ],
        }],
        vec![RightClickEvent {
            item: "minecraft:stick".to_string(),
            actions: vec![Action::SpawnBlockDisplayModel { model_id: "small".to_string() }],
        }],
        vec![model("big", 200), model("small", 3)],
    );
    let first = compile(&data);
    let second = compile(&data);
    assert_eq!(first, second);
    assert!(!first.0.is_empty());
    assert!(!first.1.is_empty());
}

#[test]
fn repeat_wraps_body_one_level_deeper() {
    let data = mod_with(Vec::new(), Vec::new(), Vec::new());
    let action = Action::Repeat {
        times: 3,
        actions: vec![Action::LooksClearEffects {}, Action::PlayerHealth { health: 20 }],
    };
    assert_eq!(
        generate_action_java(&action, 1, &data),
        "    for (int i = 0; i < 3; i++) {\n        player.clearStatusEffects();\n        player.setHealth(20.0f);\n    }"
    );
}

#[test]
fn repeat_line_count_is_two_plus_body_lines() {
    let data = mod_with(Vec::new(), Vec::new(), Vec::new());
    let body = vec![
        Action::GiveItem { item: "minecraft:apple".to_string(), amount: 2 },
        Action::WorldLightning {},
        Action::Repeat { times: 2, actions: vec![Action::SoundStopAll {}] },
    ];
    let mut sum = 0;
    for a in &body {
        sum += lines(&generate_action_java(a, 3, &data));
    }
    let action = Action::Repeat { times: 7, actions: body };
    assert_eq!(lines(&generate_action_java(&action, 2, &data)), 2 + sum);
    assert_eq!(sum, 5 + 2 + 5);
}

#[test]
fn repeat_without_body_has_two_lines() {
    let data = mod_with(Vec::new(), Vec::new(), Vec::new());
    let action = Action::Repeat { times: -1, actions: Vec::new() };
    assert_eq!(generate_action_java(&action, 0, &data), "for (int i = 0; i < -1; i++) {\n}");
}

#[test]
fn repeat_forever_wraps_body_two_levels_deeper() {
    let data = mod_with(Vec::new(), Vec::new(), Vec::new());
    let action = Action::RepeatForever { actions: vec![Action::LooksClearEffects {}] };
    assert_eq!(
        generate_action_java(&action, 1, &data),
        "    // WARNING: Repeat forever - use with caution!\n    new java.util.Timer().scheduleAtFixedRate(new java.util.TimerTask() {\n        @Override\n        public void run() {\n            player.clearStatusEffects();\n        }\n    }, 0, 50);"
    );
}

#[test]
fn conditional_without_condition_is_always_true() {
    let data = mod_with(Vec::new(), Vec::new(), Vec::new());
    let action = Action::IfThen { condition: None, actions: vec![Action::LooksClearEffects {}] };
    assert_eq!(
        generate_action_java(&action, 1, &data),
        "    if (true) {\n        player.clearStatusEffects();\n    }"
    );
}

#[test]
fn conditional_with_nested_negation() {
    let data = mod_with(Vec::new(), Vec::new(), Vec::new());
    let action = Action::IfThen {
        condition: Some(Condition::LogicNot {
            condition: Some(Box::new(Condition::SensingIsSneaking {})),
        }),
        actions: Vec::new(),
    };
    assert_eq!(generate_action_java(&action, 0, &data), "if (!(player.isSneaking())) {\n}");
}

#[test]
fn nested_blocks_indent_by_depth() {
    let data = mod_with(Vec::new(), Vec::new(), Vec::new());
    let action = Action::Repeat {
        times: 2,
        actions: vec![Action::IfThen {
            condition: Some(Condition::SensingIsOnFire {}),
            actions: vec![Action::RepeatForever { actions: vec![Action::LooksClearEffects {}] }],
        }],
    };
    let text = generate_action_java(&action, 0, &data);
    assert!(text.contains("\n    if (player.isOnFire()) {\n"));
    assert!(text.contains("\n        // WARNING: Repeat forever - use with caution!\n"));
    assert!(text.contains("\n                player.clearStatusEffects();\n"));
    assert!(text.ends_with("\n    }\n}"));
}

#[test]
fn weather_modes() {
    let data = mod_with(Vec::new(), Vec::new(), Vec::new());
    let emit = |w: &str| generate_action_java(&Action::WorldWeather { weather: w.to_string() }, 1, &data);
    assert_eq!(emit("clear"), "    world.setWeather(0, 0, false, false);");
    assert_eq!(emit("rain"), "    world.setWeather(0, 6000, true, false);");
    assert_eq!(emit("thunder"), "    world.setWeather(0, 6000, true, true);");
    assert_eq!(emit("snow"), "    world.setWeather(0, 0, false, false);");
    assert_eq!(emit("Rain"), "    world.setWeather(0, 0, false, false);");
}

#[test]
fn missing_model_gives_one_report_and_no_spawn() {
    let data = mod_with(Vec::new(), Vec::new(), vec![model("other", 2)]);
    let text = generate_action_java(&Action::SpawnBlockDisplayModel { model_id: "ghost".to_string() }, 1, &data);
    assert_eq!(
        text,
        "    // ERROR: AI model not found: ghost\n    source.sendMessage(Text.literal(\"Model not found: ghost\").formatted(Formatting.RED));"
    );
    assert_eq!(count(&text, "sendMessage"), 1);
    assert_eq!(count(&text, "summon"), 0);
    assert_eq!(count(&text, "spawnModel_"), 0);
}

#[test]
fn small_model_is_spawned_inline() {
    let mut m = model("tower-1", 0);
    m.blocks.push(BlockDisplayEntity {
        block: "minecraft:stone".to_string(),
        properties: Some(vec![
            BlockProperty { name: "facing".to_string(), value: "north".to_string() },
            BlockProperty { name: "half".to_string(), value: "top".to_string() },
        ]),
        x: "0.5".to_string(),
        y: "1".to_string(),
        z: "-0.25".to_string(),
        scale: Some(Triple { x: "0.5".to_string(), y: "0.25".to_string(), z: "2".to_string() }),
        rotation: None,
        brightness: None,
    });
    let data = mod_with(Vec::new(), Vec::new(), vec![m]);
    let text = generate_action_java(&Action::SpawnBlockDisplayModel { model_id: "tower-1".to_string() }, 1, &data);
    assert_eq!(
        text,
        "    // Spawn AI model: Tower\n    source.sendMessage(Text.literal(\"Spawning 1 blocks for model: Tower\"));\n    try {\n        source.getServer().getCommandManager().executeWithPrefix(\n            source.getServer().getCommandSource(),\n            String.format(\"summon minecraft:block_display %.2f %.2f %.2f %s\",\n                pos.x + 0.5, pos.y + 1, pos.z + -0.25, \"{transformation:{left_rotation:[0f,0f,0f,1f],right_rotation:[0f,0f,0f,1f],translation:[0f,0f,0f],scale:[0.5f,0.25f,2f]},block_state:{Name:\\\"minecraft:stone[facing=north,half=top]\\\"}}\")\n        );\n        source.sendMessage(Text.literal(\"Successfully spawned 1 blocks\"));\n    } catch (Exception e) {\n        source.sendMessage(Text.literal(\"Error spawning model: \" + e.getMessage()));\n    }\n"
    );
    assert_eq!(generate_model_helper_methods(&data), "");
}

#[test]
fn model_at_the_limit_is_inline_with_one_statement_per_block() {
    let data = mod_with(Vec::new(), Vec::new(), vec![model("m", BLOCKS_PER_METHOD)]);
    let text = generate_action_java(&Action::SpawnBlockDisplayModel { model_id: "m".to_string() }, 0, &data);
    assert_eq!(count(&text, "summon minecraft:block_display"), BLOCKS_PER_METHOD);
    assert_eq!(count(&text, "spawnModel_"), 0);
    assert!(text.contains("Spawning 80 blocks for model: Tower"));
    assert_eq!(generate_model_helper_methods(&data), "");
    for i in 0..BLOCKS_PER_METHOD - 1 {
        let here = text.find(&format!("pos.x + {}, ", i)).unwrap();
        let next = text.find(&format!("pos.x + {}, ", i + 1)).unwrap();
        assert!(here < next);
    }
}

#[test]
fn empty_model_is_inline_without_statements() {
    let data = mod_with(Vec::new(), Vec::new(), vec![model("m", 0)]);
    let text = generate_action_java(&Action::SpawnBlockDisplayModel { model_id: "m".to_string() }, 0, &data);
    assert_eq!(
        text,
        "// Spawn AI model: Tower\nsource.sendMessage(Text.literal(\"Spawning 0 blocks for model: Tower\"));\ntry {\n    source.sendMessage(Text.literal(\"Successfully spawned 0 blocks\"));\n} catch (Exception e) {\n    source.sendMessage(Text.literal(\"Error spawning model: \" + e.getMessage()));\n}\n"
    );
}

#[test]
fn one_block_over_the_limit_gives_two_helpers() {
    let data = mod_with(spawning(&["big 1"]), Vec::new(), vec![model("big 1", BLOCKS_PER_METHOD + 1)]);
    let helpers = generate_model_helper_methods(&data);
    let routines: Vec<&str> = helpers.split("\n    private static void ").collect();
    assert_eq!(routines.len(), 3);
    assert_eq!(routines[0], "");
    assert!(routines[1].starts_with("spawnModel_big_1_part1(net.minecraft.server.command.ServerCommandSource source, Vec3d pos) {\n"));
    assert!(routines[2].starts_with("spawnModel_big_1_part2(net.minecraft.server.command.ServerCommandSource source, Vec3d pos) {\n"));
    assert_eq!(count(routines[1], "summon minecraft:block_display"), BLOCKS_PER_METHOD);
    assert_eq!(count(routines[2], "summon minecraft:block_display"), 1);
    assert!(routines[2].contains("pos.x + 80, "));
    assert!(routines[1].ends_with("        );\n    }\n"));
    let text = generate_action_java(&Action::SpawnBlockDisplayModel { model_id: "big 1".to_string() }, 1, &data);
    assert_eq!(
        text,
        "    // Spawn AI model: Tower\n    source.sendMessage(Text.literal(\"Spawning 81 blocks for model: Tower\"));\n    spawnModel_big_1_part1(source, pos);\n    spawnModel_big_1_part2(source, pos);\n    source.sendMessage(Text.literal(\"Successfully spawned 81 blocks\"));\n"
    );
}

#[test]
fn helper_method_text_is_exact() {
    let models = vec![model("m", 3)];
    let (_, helpers) = compile_with(&spawning(&["m"]), &[], &models, 2);
    let statement = |i: usize| {
        format!(
            "        source.getServer().getCommandManager().executeWithPrefix(\n            source.getServer().getCommandSource(),\n            String.format(\"summon minecraft:block_display %.2f %.2f %.2f %s\",\n                pos.x + {}, pos.y + 0, pos.z + 0, \"{{transformation:{{left_rotation:[0f,0f,0f,1f],right_rotation:[0f,0f,0f,1f],translation:[0f,0f,0f],scale:[1f,1f,1f]}},block_state:{{Name:\\\"minecraft:stone\\\"}}}}\")\n        );\n",
            i
        )
    };
    let expected = format!(
        "\n    private static void spawnModel_m_part1(net.minecraft.server.command.ServerCommandSource source, Vec3d pos) {{\n{}{}    }}\n\n    private static void spawnModel_m_part2(net.minecraft.server.command.ServerCommandSource source, Vec3d pos) {{\n{}    }}\n",
        statement(0),
        statement(1),
        statement(2)
    );
    assert_eq!(helpers, expected);
}

#[test]
fn helpers_cover_every_block_once_and_in_order() {
    for k in 1..7usize {
        for n in 0..20usize {
            let models = vec![model("m", n)];
            let (_, helpers) = compile_with(&spawning(&["m"]), &[], &models, k);
            let call_site = emit_action(&Action::SpawnBlockDisplayModel { model_id: "m".to_string() }, 0, &models, k);
            if n <= k {
                assert_eq!(helpers, "");
                assert_eq!(count(&call_site, "summon minecraft:block_display"), n);
                assert_eq!(count(&call_site, "spawnModel_"), 0);
            } else {
                let parts = (n + k - 1) / k;
                assert_eq!(count(&helpers, "private static void"), parts);
                assert_eq!(count(&call_site, "spawnModel_m_part"), parts);
                assert_eq!(count(&call_site, "summon minecraft:block_display"), 0);
                assert_eq!(count(&helpers, "summon minecraft:block_display"), n);
                let mut from = 0;
                for i in 0..n {
                    let at = helpers[from..].find(&format!("pos.x + {}, ", i)).unwrap();
                    from += at + 1;
                }
                let routines: Vec<&str> = helpers.split("\n    private static void ").collect();
                for p in 1..=parts {
                    let size = if p < parts { k } else { n - (parts - 1) * k };
                    assert!(routines[p].starts_with(&format!("spawnModel_m_part{}(", p)));
                    assert_eq!(count(routines[p], "summon minecraft:block_display"), size);
                    let call = format!("spawnModel_m_part{}(source, pos);\n", p);
                    assert_eq!(count(&call_site, &call), 1);
                }
            }
        }
    }
}

#[test]
fn helpers_follow_the_order_of_the_models() {
    let models = vec![model("first", 3), model("tiny", 1), model("second", 3)];
    let (_, helpers) = compile_with(&spawning(&["second", "tiny", "first"]), &[], &models, 2);
    let a = helpers.find("spawnModel_first_part1").unwrap();
    let b = helpers.find("spawnModel_first_part2").unwrap();
    let c = helpers.find("spawnModel_second_part1").unwrap();
    assert!(a < b && b < c);
    assert_eq!(count(&helpers, "spawnModel_tiny"), 0);
}

#[test]
fn first_model_with_the_id_is_spawned() {
    let mut a = model("same", 1);
    a.name = "First".to_string();
    let mut b = model("same", 2);
    b.name = "Second".to_string();
    let models = vec![b_renamed(model("other", 1)), a, b];
    let text = emit_action(&Action::SpawnBlockDisplayModel { model_id: "same".to_string() }, 0, &models, 80);
    assert!(text.starts_with("// Spawn AI model: First\n"));
    assert!(text.contains("Spawning 1 blocks for model: First"));
}

fn b_renamed(mut m: BlockDisplayModel) -> BlockDisplayModel {
    m.name = "Other".to_string();
    m
}

#[test]
fn block_without_properties_keeps_its_id() {
    let mut m = model("m", 0);
    let mut e = block(0);
    e.properties = Some(Vec::new());
    e.block = "minecraft:oak_log".to_string();
    m.blocks.push(e);
    let models = vec![m];
    let text = emit_action(&Action::SpawnBlockDisplayModel { model_id: "m".to_string() }, 0, &models, 80);
    assert!(text.contains("block_state:{Name:\\\"minecraft:oak_log\\\"}}"));
    assert!(text.contains("scale:[1f,1f,1f]"));
}

#[test]
fn model_that_nothing_spawns_has_no_helpers() {
    let data = mod_with(Vec::new(), Vec::new(), vec![model("big", BLOCKS_PER_METHOD + 1)]);
    assert_eq!(generate_model_helper_methods(&data), "");
    assert_eq!(compile(&data), (String::new(), String::new()));
    let other = mod_with(spawning(&["small", "ghost"]), Vec::new(), vec![model("big", 200), model("small", 3)]);
    assert_eq!(generate_model_helper_methods(&other), "");
}

#[test]
fn only_spawned_models_get_helpers() {
    let models = vec![model("a", 5), model("b", 5), model("c", 5)];
    let (_, helpers) = compile_with(&spawning(&["c", "a"]), &[], &models, 2);
    assert_eq!(count(&helpers, "private static void spawnModel_a_part"), 3);
    assert_eq!(count(&helpers, "private static void spawnModel_b_part"), 0);
    assert_eq!(count(&helpers, "private static void spawnModel_c_part"), 3);
    assert!(helpers.find("spawnModel_a_part3").unwrap() < helpers.find("spawnModel_c_part1").unwrap());
}

#[test]
fn model_spawned_twice_gets_its_helpers_once() {
    let models = vec![model("m", 5)];
    let (body, helpers) = compile_with(&spawning(&["m", "m"]), &[], &models, 2);
    assert_eq!(count(&helpers, "private static void"), 3);
    assert_eq!(count(&body, "spawnModel_m_part1(source, pos);"), 2);
}

#[test]
fn model_spawned_deep_in_a_tree_gets_helpers() {
    let models = vec![model("deep", 3), model("event", 3), model("unused", 3)];
    let commands = vec![Command {
        command: "c".to_string(),
        actions: vec![
            Action::LooksClearEffects {},
            Action::Repeat {
                times: 2,
                actions: vec![Action::IfThen {
                    condition: None,
                    actions: vec![Action::RepeatForever {
                        actions: vec![Action::SpawnBlockDisplayModel { model_id: "deep".to_string() }],
                    }],
                }],
            },
        ],
    }];
    let events = vec![RightClickEvent {
        item: "minecraft:stick".to_string(),
        actions: vec![Action::SpawnBlockDisplayModel { model_id: "event".to_string() }],
    }];
    let (body, helpers) = compile_with(&commands, &events, &models, 2);
    assert_eq!(count(&helpers, "private static void spawnModel_deep_part"), 2);
    assert_eq!(count(&helpers, "private static void spawnModel_event_part"), 2);
    assert_eq!(count(&helpers, "spawnModel_unused"), 0);
    for call in ["spawnModel_deep_part1(", "spawnModel_deep_part2(", "spawnModel_event_part1(", "spawnModel_event_part2("] {
        assert_eq!(count(&body, call), 1);
        assert_eq!(count(&helpers, &format!("private static void {}", call)), 1);
    }
}

#[test]
fn of_two_models_with_one_id_the_first_gets_the_helpers() {
    let mut second = model("same", 7);
    second.name = "Second".to_string();
    let models = vec![model("same", 3), second];
    let (body, helpers) = compile_with(&spawning(&["same"]), &[], &models, 2);
    assert_eq!(count(&helpers, "private static void spawnModel_same_part"), 2);
    assert_eq!(count(&helpers, "summon minecraft:block_display"), 3);
    assert_eq!(count(&body, "spawnModel_same_part"), 2);
}

#[test]
fn spawned_models_are_told_from_the_others() {
    let nested = Action::Repeat {
        times: 1,
        actions: vec![Action::WorldLightning {}, Action::SpawnBlockDisplayModel { model_id: "a".to_string() }],
    };
    assert!(names_model(&nested, "a"));
    assert!(!names_model(&nested, "b"));
    assert!(!names_model(&Action::Message { message: "a".to_string() }, "a"));
    assert!(!names_model(&Action::Repeat { times: 1, actions: Vec::new() }, "a"));
    let commands = spawning(&["x", "y"]);
    assert!(spawns_model(&commands, &[], "y"));
    assert!(!spawns_model(&commands, &[], "z"));
    assert!(!spawns_model(&[], &[], "x"));
    assert!(sequence_names(&commands[0].actions, "x"));
    assert!(!sequence_names(&Vec::new(), "x"));
}
