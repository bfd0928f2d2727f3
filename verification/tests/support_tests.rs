use harimu_core::{
    create_agent, create_wallet, extend_life, infuse, mine, pow_solve, pow_valid,
    record_successful_actions, remove_agent, snapshot_from_persistent, spawn_companion, transfer,
    transfer_qi, vote, wallet_pow_solve, wallet_pow_valid, Action, ActionArg, ActionStatsStore,
    AgentStore, AgentStoreError, BrainMemory, InfuseQiCommand, OreKind, Position, QiSourceStore,
    Spread, StructureKind, StructureRecord, StructureStore, Vm, VoteDirection, Wallet, WalletError,
    WalletStore, WorldCommands, Zone,
};
use harimu_core::brain::{action_token, memory_context, push_memory, truncate};
use harimu_core::strutil::u64_to_string;
use harimu_core::choose_action;
use harimu_core::ActionError;

#[test]
fn pow_solve_finds_the_first_valid_nonce() {
    // SHA-256 over the little-endian encodings of (1, 1, nonce): the first
    // nonce whose digest opens with two zero bytes is 211210.
    assert!(!pow_valid(1, 1, 0));
    assert_eq!(pow_solve(1, 1, 0), Some(211210));
    assert!(pow_valid(1, 1, 211210));
}

#[test]
fn wallet_pow_solve_finds_the_first_valid_nonce() {
    // SHA-256 over b"ab" plus the little-endian nonce: the first valid
    // nonce is 35136.
    assert!(!wallet_pow_valid("ab", 0));
    assert_eq!(wallet_pow_solve("ab", 0), Some(35136));
    assert!(wallet_pow_valid("ab", 35136));
}

#[test]
fn created_wallets_have_hex_addresses() {
    let w = create_wallet();
    assert_eq!(w.balance, 0);
    assert_eq!(w.address.len(), 40);
    assert!(w.address.chars().all(|c| c.is_ascii_hexdigit() && !c.is_ascii_uppercase()));
}

#[test]
fn wallet_transfer_moves_balance() {
    let mut store = WalletStore::default();
    store.upsert_wallet(Wallet { address: "aa".to_string(), balance: 10 });
    store.upsert_wallet(Wallet { address: "bb".to_string(), balance: 1 });

    assert!(transfer(&mut store, "aa", "bb", 4).is_ok());
    assert_eq!(store.get_wallet("aa").unwrap().balance, 6);
    assert_eq!(store.get_wallet("bb").unwrap().balance, 5);

    assert_eq!(
        transfer(&mut store, "aa", "bb", 100),
        Err(WalletError::InsufficientBalance)
    );
    assert_eq!(
        transfer(&mut store, "zz", "bb", 1),
        Err(WalletError::SenderNotFound)
    );
    // zero transfers and self transfers are no-ops
    assert!(transfer(&mut store, "aa", "bb", 0).is_ok());
    assert!(transfer(&mut store, "aa", "aa", 3).is_ok());
    assert_eq!(store.get_wallet("aa").unwrap().balance, 6);
}

#[test]
fn mining_credits_the_reward() {
    let mut store = WalletStore::default();
    store.upsert_wallet(Wallet { address: "ab".to_string(), balance: 2 });
    let (nonce, reward) = mine(&mut store, "ab", 0).unwrap();
    assert_eq!(nonce, 35136);
    assert_eq!(reward, 5);
    assert_eq!(store.get_wallet("ab").unwrap().balance, 7);
    assert_eq!(mine(&mut store, "zz", 0), Err(WalletError::WalletNotFound));
}

#[test]
fn agent_store_lifecycle() {
    let mut store = AgentStore::default();
    let p = create_agent(&mut store, "alpha".to_string()).unwrap();
    assert_eq!(p.qi, 0);
    assert_eq!(p.max_age, 112);
    assert_eq!(p.id.len(), 40);
    let id = p.id.clone();

    assert!(infuse(&mut store, &id, 9).is_ok());
    assert_eq!(store.agents[0].qi, 9);
    assert!(extend_life(&mut store, &id, 0).is_ok());
    assert_eq!(store.agents[0].max_age, 1);
    assert!(spawn_companion(&mut store, &id).is_ok());
    assert_eq!(store.agents[0].companions, 1);

    assert_eq!(
        infuse(&mut store, "missing", 1),
        Err(AgentStoreError::NotFound)
    );

    assert!(remove_agent(&mut store, &id).is_ok());
    assert!(store.agents.is_empty());
}

#[test]
fn agent_qi_transfer_checks_funds() {
    let mut store = AgentStore::default();
    let a = create_agent(&mut store, "a".to_string()).unwrap().id;
    let b = create_agent(&mut store, "b".to_string()).unwrap().id;
    infuse(&mut store, &a, 5).unwrap();

    assert!(transfer_qi(&mut store, &a, &b, 2).is_ok());
    assert_eq!(store.agents[0].qi, 3);
    assert_eq!(store.agents[1].qi, 2);
    assert_eq!(
        transfer_qi(&mut store, &a, &b, 100),
        Err(AgentStoreError::InsufficientQi)
    );
}

#[test]
fn votes_tally_per_action() {
    let mut store = AgentStore::default();
    vote(&mut store, "act-1", VoteDirection::Up);
    vote(&mut store, "act-1", VoteDirection::Down);
    vote(&mut store, "act-1", VoteDirection::Up);
    vote(&mut store, "act-2", VoteDirection::Down);
    assert_eq!(store.votes.len(), 2);
    assert_eq!(store.votes[0].tally.up, 2);
    assert_eq!(store.votes[0].tally.down, 1);
    assert_eq!(store.votes[1].tally.down, 1);
}

#[test]
fn stats_count_per_action_kind() {
    let mut store = ActionStatsStore::default();
    let actions = vec![
        Action::Scan,
        Action::Move { dx: 1, dy: 0, dz: 0 },
        Action::Scan,
        Action::Idle,
    ];
    record_successful_actions(&mut store, 7, &actions);
    assert_eq!(store.per_agent.len(), 1);
    assert_eq!(store.per_agent[0].agent_id, 7);
    assert_eq!(store.per_agent[0].stats.scan_count, 2);
    assert_eq!(store.per_agent[0].stats.move_count, 1);
    assert_eq!(store.per_agent[0].stats.idle_count, 1);
    record_successful_actions(&mut store, 7, &vec![Action::Scan]);
    assert_eq!(store.per_agent[0].stats.scan_count, 3);
}

#[test]
fn memory_keeps_only_the_newest_notes() {
    let mut memory = BrainMemory::default();
    for i in 0..8u64 {
        push_memory(&mut memory, format!("note {}", i));
    }
    assert_eq!(memory.notes.len(), 5);
    assert_eq!(memory.notes[0], "note 3");
    assert_eq!(memory.notes[4], "note 7");
    let ctx = memory_context(&memory, 2);
    assert_eq!(ctx, vec!["note 6".to_string(), "note 7".to_string()]);
}

#[test]
fn action_tokens_spell_out_parameters() {
    assert_eq!(action_token(&Action::Move { dx: 1, dy: 0, dz: -1 }), "move(1,0,-1)");
    assert_eq!(action_token(&Action::Scan), "scan");
    assert_eq!(
        action_token(&Action::BuildStructure { kind: StructureKind::Qi }),
        "build_structure(qi)"
    );
    assert_eq!(
        action_token(&Action::HarvestOre { ore: OreKind::Transistor, source_id: 4 }),
        "harvest_transistor(4)"
    );
    assert_eq!(u64_to_string(0), "0");
    assert_eq!(u64_to_string(90210), "90210");
}

#[test]
fn rejections_describe_themselves() {
    assert_eq!(ActionError::AgentNotFound(7).describe(), "agent 7 not found");
    assert_eq!(
        ActionError::InsufficientQi { agent_id: 2, required: 1, available: 0 }.describe(),
        "agent 2 has insufficient qi: required 1, available 0"
    );
    assert_eq!(
        ActionError::MoveOutOfRange { agent_id: 2, dx: 4, dy: 0, dz: -1 }.describe(),
        "agent 2 move exceeds max radius 3 (requested 4,0,-1 )"
    );
    assert_eq!(
        ActionError::OreSourceUnavailable { agent_id: 1, ore: OreKind::Qi, source_id: None }
            .describe(),
        "agent 1 has no qi source in range to harvest"
    );
}

#[test]
fn truncate_cuts_on_character_boundaries() {
    assert_eq!(truncate("short", 10), "short");
    assert_eq!(truncate("a longer text", 5), "a lon...");
}

#[test]
fn labels_and_materialization_round_trip() {
    let arg = ActionArg::BuildStructure { kind: StructureKind::Programmable };
    assert_eq!(arg.label(), "build_programmable");
    assert_eq!(
        arg.materialize(1, 1),
        Action::BuildStructure { kind: StructureKind::Programmable }
    );
    assert_eq!(ActionArg::HarvestOre { ore: OreKind::Qi, source_id: 0 }.label(), "harvest_qi");
}

#[test]
fn chooser_takes_the_first_affordable_candidate() {
    let mut vm = Vm::new();
    let agent_id = vm.spawn_agent("Chooser".to_string(), 0, Position::origin());
    let candidates = vec![
        ActionArg::BuildStructure { kind: StructureKind::Basic },
        ActionArg::Scan,
    ];
    // the build costs 1 Qi the agent does not have; scanning is free
    assert_eq!(choose_action(&vm, agent_id, &candidates, 1), Action::Scan);
    let no_fit = vec![ActionArg::BuildStructure { kind: StructureKind::Basic }];
    assert_eq!(choose_action(&vm, agent_id, &no_fit, 1), Action::Idle);
}

#[test]
fn persistent_snapshot_sorts_structures_by_id() {
    let ore_store = QiSourceStore {
        sources: vec![harimu_core::QiSourceSpec {
            position: Position { x: 1, y: 2, z: 3 },
            capacity: 9,
            recharge_per_tick: 2,
            ore: OreKind::Qi,
        }],
        total_qi_infused: 0,
    };
    let zone = Zone { x: 0, y: 0, z: 0 };
    let structure_store = StructureStore {
        structures: vec![
            StructureRecord {
                id: 3,
                kind: StructureKind::Basic,
                position: Position { x: 5, y: 0, z: 0 },
                zone,
                owner: 1,
            },
            StructureRecord {
                id: 1,
                kind: StructureKind::Qi,
                position: Position { x: 6, y: 0, z: 0 },
                zone,
                owner: 2,
            },
        ],
    };
    let snapshot = snapshot_from_persistent(&ore_store, &structure_store);
    assert_eq!(snapshot.tick, 0);
    assert!(snapshot.agents.is_empty());
    assert_eq!(snapshot.ore_nodes.len(), 1);
    assert_eq!(snapshot.ore_nodes[0].id, 1);
    assert_eq!(snapshot.ore_nodes[0].available, 9);
    assert_eq!(snapshot.structures.len(), 2);
    assert_eq!(snapshot.structures[0].id, 1);
    assert_eq!(snapshot.structures[1].id, 3);
}

#[test]
fn world_snapshot_lists_entities_in_id_order() {
    let mut vm = Vm::new();
    vm.spawn_agent("One".to_string(), 1, Position::origin());
    vm.spawn_agent("Two".to_string(), 2, Position::origin());
    vm.seed_ore_source(OreKind::Transistor, Position { x: 3, y: 0, z: 0 }, 4, 1);
    let snapshot = vm.snapshot();
    assert_eq!(snapshot.agents.len(), 2);
    assert_eq!(snapshot.agents[0].id, 1);
    assert_eq!(snapshot.agents[0].name, "One");
    assert_eq!(snapshot.agents[1].position, Position { x: 1, y: 0, z: 0 });
    assert_eq!(snapshot.ore_nodes.len(), 1);
    assert_eq!(snapshot.ore_nodes[0].recharge_per_tick, 1);
}

#[test]
fn seeded_infusion_scatters_within_the_spread() {
    let mut wallet_store = WalletStore::default();
    wallet_store.upsert_wallet(Wallet { address: "aa".to_string(), balance: 200 });
    let mut qi_store = QiSourceStore::default();
    let cmd = InfuseQiCommand {
        wallet: Some("aa".to_string()),
        amount: Some(25),
        count: 0,
        capacity: 10,
        recharge: 2,
        spread: Spread { center: Position::origin(), radius: 4 },
        seed: Some(11),
        ore: OreKind::Qi,
    };
    let out = WorldCommands::infuse_qi(&cmd, &mut wallet_store, &mut qi_store).unwrap();
    assert_eq!(out.charged, 25);
    assert_eq!(out.wallet_balance, 175);
    assert_eq!(out.added.len(), 3); // 10 + 10 + 5
    assert_eq!(out.added.iter().map(|s| s.capacity).sum::<u32>(), 25);
    for spec in &out.added {
        assert!(spec.position.x.abs() <= 4 && spec.position.y.abs() <= 4 && spec.position.z.abs() <= 4);
        assert_eq!(spec.ore, OreKind::Qi);
        assert_eq!(spec.recharge_per_tick, 2);
    }
    assert_eq!(qi_store.sources.len(), 3);
    assert_eq!(qi_store.total_qi_infused, 25);

    // transistor ore is priced at 100 Qi per unit
    let cmd2 = InfuseQiCommand {
        wallet: Some("aa".to_string()),
        amount: None,
        count: 1,
        capacity: 1,
        recharge: 0,
        spread: Spread::default(),
        seed: Some(1),
        ore: OreKind::Transistor,
    };
    let out2 = WorldCommands::infuse_qi(&cmd2, &mut wallet_store, &mut qi_store).unwrap();
    assert_eq!(out2.charged, 100);
    assert_eq!(out2.wallet_balance, 75);
}
