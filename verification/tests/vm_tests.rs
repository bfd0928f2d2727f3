use harimu_core::{Action, ActionError, ActionRequest, DeathReason, Event, OreKind, Position, StructureKind, Vm, HARVEST_PER_ACTION, MAX_MOVE_RADIUS};

#[test]
fn qi_spend_and_death() {
    let mut vm = Vm::new();
    let agent_id = vm.spawn_agent("Nova".to_string(), 2, Position::origin());

    let tick = vm.step(&[ActionRequest::new(
        agent_id,
        Action::Move { dx: 1, dy: 0, dz: 0 },
    )]);

    assert!(tick.rejections.is_empty());
    assert_eq!(vm.world().tick(), 1);

    let agent = vm.world().agent(agent_id).unwrap();
    assert_eq!(agent.qi, 1); // 2 start - 1 upkeep
    assert!(agent.alive);
}

#[test]
fn hitting_zero_qi_does_not_kill_agent() {
    let mut vm = Vm::new();
    let agent_id = vm.spawn_agent("Nova".to_string(), 1, Position::origin());

    let _ = vm.step(&[ActionRequest::new(
        agent_id,
        Action::Move { dx: 1, dy: 0, dz: 0 },
    )]);

    let agent = vm.world().agent(agent_id).unwrap();
    assert_eq!(agent.qi, 0);
    assert!(agent.alive, "agent should remain alive at zero qi");
}

#[test]
fn moving_within_zone_is_free() {
    let mut vm = Vm::new();
    let agent_id = vm.spawn_agent("Walker".to_string(), 2, Position::origin());

    let _tick = vm.step(&[ActionRequest::new(
        agent_id,
        Action::Move { dx: 1, dy: 0, dz: 0 },
    )]);

    assert!(_tick.rejections.is_empty());
    let agent = vm.world().agent(agent_id).unwrap();
    assert_eq!(agent.qi, 1); // cost to move
}

#[test]
fn move_within_limit_allowed() {
    let mut vm = Vm::new();
    let agent_id = vm.spawn_agent("Walker".to_string(), 3, Position::origin());

    let tick = vm.step(&[ActionRequest::new(
        agent_id,
        Action::Move { dx: MAX_MOVE_RADIUS, dy: 0, dz: 0 },
    )]);

    assert!(tick.rejections.is_empty());
    let agent = vm.world().agent(agent_id).unwrap();
    assert_eq!(agent.qi, 2); // 3 start -1 move
}

#[test]
fn move_beyond_limit_is_rejected() {
    let mut vm = Vm::new();
    let agent_id = vm.spawn_agent("Walker".to_string(), 4, Position::origin());

    let tick = vm.step(&[ActionRequest::new(
        agent_id,
        Action::Move { dx: MAX_MOVE_RADIUS + 1, dy: 0, dz: 0 },
    )]);

    assert_eq!(tick.rejections.len(), 1);
    assert!(matches!(
        tick.rejections[0].error,
        ActionError::MoveOutOfRange { .. }
    ));
    let agent = vm.world().agent(agent_id).unwrap();
    assert_eq!(agent.qi, 4); // no charge on rejection
}

#[test]
fn move_into_occupied_is_rejected() {
    let mut vm = Vm::new();
    let a1 = vm.spawn_agent("A1".to_string(), 3, Position::origin());
    let _a2 = vm.spawn_agent("A2".to_string(), 3, Position::origin()); // gets shifted to (1,0,0)

    let tick = vm.step(&[ActionRequest::new(
        a1,
        Action::Move { dx: 1, dy: 0, dz: 0 },
    )]);

    assert_eq!(tick.rejections.len(), 1);
    assert!(matches!(
        tick.rejections[0].error,
        ActionError::PositionOccupied { target, .. } if target == Position { x: 1, y: 0, z: 0 }
    ));
}

#[test]
fn dead_agents_cannot_act() {
    let mut vm = Vm::new();
    let agent_id = vm.spawn_agent("Orchid".to_string(), 1, Position::origin());

    vm.kill_agent(agent_id, DeathReason::Hazard).unwrap();

    let tick = vm.step(&[ActionRequest::new(
        agent_id,
        Action::Move { dx: 1, dy: 0, dz: 0 },
    )]);

    assert_eq!(tick.rejections.len(), 1);
    assert!(matches!(
        tick.rejections[0].error,
        ActionError::AgentDead(id) if id == agent_id
    ));
}

#[test]
fn scanning_is_free() {
    let mut vm = Vm::new();
    let agent_id = vm.spawn_agent("Scout".to_string(), 3, Position::origin());

    let tick = vm.step(&[ActionRequest::new(agent_id, Action::Scan)]);

    assert!(tick.rejections.is_empty());
    let agent = vm.world().agent(agent_id).unwrap();
    assert_eq!(agent.qi, 3); // scan is free
    assert!(tick.events.iter().any(|e| matches!(
        e,
        Event::ActionObserved { agent_id: id, action: "scan" } if *id == agent_id
    )));
}

#[test]
fn build_structure_costs_qi_and_records() {
    let mut vm = Vm::new();
    let agent_id = vm.spawn_agent("Builder".to_string(), 3, Position::origin());

    let tick = vm.step(&[ActionRequest::new(
        agent_id,
        Action::BuildStructure { kind: StructureKind::Basic },
    )]);

    assert!(tick.rejections.is_empty());
    let agent = vm.world().agent(agent_id).unwrap();
    assert_eq!(agent.qi, 2); // 3 start -1 build
    assert_eq!(vm.world.structures.len(), 1);
    assert!(tick
        .events
        .iter()
        .any(|e| matches!(e, Event::StructureBuilt { agent_id: id, .. } if *id == agent_id)));
    assert!(tick.events.iter().any(|e| matches!(
        e,
        Event::QiSpent { action: "build_structure", amount: 1, .. }
    )));
}

#[test]
fn cannot_build_on_existing_structure() {
    let mut vm = Vm::new();
    let agent_id = vm.spawn_agent("Builder".to_string(), 5, Position::origin());

    let _ = vm.step(&[ActionRequest::new(
        agent_id,
        Action::BuildStructure { kind: StructureKind::Basic },
    )]);
    let tick = vm.step(&[ActionRequest::new(
        agent_id,
        Action::BuildStructure { kind: StructureKind::Basic },
    )]);

    assert_eq!(tick.rejections.len(), 1);
    assert!(matches!(
        tick.rejections[0].error,
        ActionError::StructureSpaceOccupied { .. }
    ));
    let agent = vm.world().agent(agent_id).unwrap();
    assert_eq!(agent.qi, 4); // 5 start -1 build (second attempt rejected, no charge)
}

#[test]
fn qi_sources_recharge_each_tick() {
    let mut vm = Vm::new();
    vm.set_max_qi_supply(10);
    let source_id = vm.seed_qi_source(Position::origin(), 10, 2);
    if let Some(src) = vm.world.qi_sources.iter_mut().find(|s| s.id == source_id) {
        src.current = 1;
    }

    let _ = vm.step(&[]);
    let level_after_first = vm
        .world
        .qi_sources
        .iter()
        .find(|s| s.id == source_id)
        .map(|s| s.current)
        .unwrap();
    assert_eq!(level_after_first, 3);

    let _ = vm.step(&[]);
    let level_after_second = vm
        .world
        .qi_sources
        .iter()
        .find(|s| s.id == source_id)
        .map(|s| s.current)
        .unwrap();
    assert_eq!(level_after_second, 5);
}

#[test]
fn qi_recharge_respects_global_cap() {
    let mut vm = Vm::new();
    vm.set_max_qi_supply(5);
    let source_id = vm.seed_qi_source(Position::origin(), 10, 3);
    if let Some(src) = vm.world.qi_sources.iter_mut().find(|s| s.id == source_id) {
        src.current = 0;
    }

    let _ = vm.step(&[]);
    let after_first = vm
        .world
        .qi_sources
        .iter()
        .find(|s| s.id == source_id)
        .map(|s| s.current)
        .unwrap();
    assert_eq!(after_first, 3);

    let _ = vm.step(&[]);
    let after_second = vm
        .world
        .qi_sources
        .iter()
        .find(|s| s.id == source_id)
        .map(|s| s.current)
        .unwrap();
    assert_eq!(after_second, 5); // capped by global supply
}

#[test]
fn scan_reports_local_state() {
    let mut vm = Vm::new();
    let agent_id = vm.spawn_agent("Scout".to_string(), 3, Position::origin());
    vm.seed_qi_source(Position { x: 1, y: 0, z: 0 }, 5, 0);

    let _ = vm.step(&[ActionRequest::new(
        agent_id,
        Action::BuildStructure { kind: StructureKind::Basic },
    )]);

    let tick = vm.step(&[ActionRequest::new(agent_id, Action::Scan)]);

    let report = tick.events.iter().find_map(|e| match e {
        Event::ScanReport { agent_id: id, nearby_qi_sources, nearby_structures, .. }
            if *id == agent_id =>
        {
            Some((nearby_qi_sources.clone(), nearby_structures.clone()))
        }
        _ => None,
    });

    let (sources, structures) = report.expect("scan report missing");
    assert!(
        sources.iter().any(|s| s.position == Position { x: 1, y: 0, z: 0 }),
        "expected qi source near agent"
    );
    assert_eq!(structures.len(), 1);
}

#[test]
fn harvests_qi_from_nearest_node() {
    let mut vm = Vm::new();
    let agent_id = vm.spawn_agent("Harvester".to_string(), 3, Position::origin());
    let src_id = vm.seed_qi_source(Position { x: 1, y: 0, z: 0 }, 5, 0);

    let tick = vm.step(&[ActionRequest::new(
        agent_id,
        Action::HarvestOre { ore: OreKind::Qi, source_id: 0 },
    )]);

    assert!(tick.rejections.is_empty());
    let agent = vm.world().agent(agent_id).unwrap();
    // cost 1, gain min(5, HARVEST_PER_ACTION=3) = 3
    assert_eq!(agent.qi, 5);
    assert!(tick.events.iter().any(|e| matches!(
        e,
        Event::OreNodeHarvested { ore, source_id, amount, .. }
            if *ore == OreKind::Qi && *source_id == src_id && *amount == HARVEST_PER_ACTION
    )));
}

#[test]
fn harvest_fails_without_source() {
    let mut vm = Vm::new();
    let agent_id = vm.spawn_agent("Harvester".to_string(), 3, Position::origin());

    let tick = vm.step(&[ActionRequest::new(
        agent_id,
        Action::HarvestOre { ore: OreKind::Qi, source_id: 42 },
    )]);

    assert_eq!(tick.rejections.len(), 1);
    assert!(matches!(
        tick.rejections[0].error,
        ActionError::OreSourceUnavailable { .. }
    ));
    let agent = vm.world().agent(agent_id).unwrap();
    assert_eq!(agent.qi, 3);
}

#[test]
fn harvest_rejected_when_depleted() {
    let mut vm = Vm::new();
    let agent_id = vm.spawn_agent("Harvester".to_string(), 3, Position::origin());
    let src_id = vm.seed_qi_source(Position::origin(), 10, 1);
    if let Some(src) = vm.world.qi_sources.iter_mut().find(|s| s.id == src_id) {
        src.current = 1;
    }

    let tick = vm.step(&[ActionRequest::new(
        agent_id,
        Action::HarvestOre { ore: OreKind::Qi, source_id: src_id },
    )]);

    assert_eq!(tick.rejections.len(), 1);
    assert!(matches!(
        tick.rejections[0].error,
        ActionError::OreSourceDepleted { ore, source_id, available, .. }
            if ore == OreKind::Qi && source_id == src_id && available < HARVEST_PER_ACTION
    ));
    let agent = vm.world().agent(agent_id).unwrap();
    assert_eq!(agent.qi, 3);
}

#[test]
fn programmable_structure_requires_transistors() {
    let mut vm = Vm::new();
    let agent_id = vm.spawn_agent("Builder".to_string(), 3, Position::origin());

    let tick = vm.step(&[ActionRequest::new(
        agent_id,
        Action::BuildStructure { kind: StructureKind::Programmable },
    )]);

    assert_eq!(tick.rejections.len(), 1);
    assert!(matches!(
        tick.rejections[0].error,
        ActionError::InsufficientOre { ore: OreKind::Transistor, .. }
    ));
    let agent = vm.world().agent(agent_id).unwrap();
    assert_eq!(agent.qi, 3);
    assert_eq!(agent.transistors, 0);
}

#[test]
fn harvest_transistor_and_build_programmable() {
    let mut vm = Vm::new();
    let agent_id = vm.spawn_agent("Tinkerer".to_string(), 4, Position::origin());
    vm.seed_ore_source(OreKind::Transistor, Position::origin(), 5, 0);

    let harvest_tick = vm.step(&[ActionRequest::new(
        agent_id,
        Action::HarvestOre { ore: OreKind::Transistor, source_id: 0 },
    )]);

    assert!(harvest_tick.rejections.is_empty());
    let agent_after_harvest = vm.world().agent(agent_id).unwrap();
    assert_eq!(agent_after_harvest.transistors, HARVEST_PER_ACTION);
    assert_eq!(agent_after_harvest.qi, 3); // 4 start -1 harvest cost

    let build_tick = vm.step(&[ActionRequest::new(
        agent_id,
        Action::BuildStructure { kind: StructureKind::Programmable },
    )]);

    assert!(build_tick.rejections.is_empty());
    let agent_after_build = vm.world().agent(agent_id).unwrap();
    assert_eq!(agent_after_build.transistors, HARVEST_PER_ACTION - 1);
    assert_eq!(agent_after_build.qi, 2); // 3 after harvest -1 build cost
    assert_eq!(vm.world.structures.len(), 1);
    assert!(build_tick.events.iter().any(|e| matches!(
        e,
        Event::StructureBuilt { kind: StructureKind::Programmable, .. }
    )));
}
