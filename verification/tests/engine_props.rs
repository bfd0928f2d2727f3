use harimu_core::{
    Action, ActionError, ActionRequest, DeathReason, Event, OreKind, Position, Vm,
};

#[test]
fn move_spends_exactly_one_qi_and_recycles_it() {
    let mut vm = Vm::new();
    let agent_id = vm.spawn_agent("Mover".to_string(), 5, Position::origin());

    let tick = vm.step(&[ActionRequest::new(
        agent_id,
        Action::Move { dx: 1, dy: 1, dz: 1 },
    )]);

    assert!(tick.rejections.is_empty());
    let agent = vm.world().agent(agent_id).unwrap();
    assert_eq!(agent.qi, 4);
    assert_eq!(agent.position, Position { x: 1, y: 1, z: 1 });
    assert_eq!(vm.world.recycled_qi, 1);
    assert!(tick.events.iter().any(|e| matches!(
        e,
        Event::QiSpent { action: "move", amount: 1, .. }
    )));
}

#[test]
fn out_of_range_move_charges_nothing_at_all() {
    let mut vm = Vm::new();
    let agent_id = vm.spawn_agent("Mover".to_string(), 5, Position::origin());

    let tick = vm.step(&[ActionRequest::new(
        agent_id,
        Action::Move { dx: 0, dy: -4, dz: 0 },
    )]);

    assert_eq!(tick.rejections.len(), 1);
    assert!(matches!(
        tick.rejections[0].error,
        ActionError::MoveOutOfRange { dy: -4, .. }
    ));
    let agent = vm.world().agent(agent_id).unwrap();
    assert_eq!(agent.qi, 5);
    assert_eq!(agent.position, Position::origin());
    assert_eq!(vm.world.recycled_qi, 0);
}

#[test]
fn agent_dies_of_age_exactly_at_max_age() {
    let mut vm = Vm::new();
    let agent_id = vm.spawn_agent_with_age("Elder".to_string(), 5, Position::origin(), 2);

    // first tick: age 0 -> 1, below max_age 2
    let first = vm.step(&[ActionRequest::new(agent_id, Action::Idle)]);
    assert!(first.rejections.is_empty());
    let agent = vm.world().agent(agent_id).unwrap();
    assert!(agent.alive);
    assert_eq!(agent.age, 1);

    // second tick: age 1 -> 2 == max_age, death by age at the end of the tick
    let second = vm.step(&[ActionRequest::new(agent_id, Action::Idle)]);
    assert!(second.rejections.is_empty());
    let agent = vm.world().agent(agent_id).unwrap();
    assert!(!agent.alive);
    assert_eq!(agent.age, 2);
    assert!(second.events.iter().any(|e| matches!(
        e,
        Event::AgentDied { agent_id: id, reason: DeathReason::Age } if *id == agent_id
    )));
}

#[test]
fn one_sided_reproduction_never_spawns() {
    let mut vm = Vm::new();
    let a = vm.spawn_agent("A".to_string(), 3, Position::origin());
    let b = vm.spawn_agent("B".to_string(), 3, Position::origin());

    let tick = vm.step(&[ActionRequest::new(a, Action::Reproduce { partner: b })]);

    assert_eq!(tick.rejections.len(), 1);
    assert!(matches!(
        tick.rejections[0].error,
        ActionError::ReproductionDeclined { .. }
    ));
    assert_eq!(vm.world.agents.len(), 2);
    let initiator = vm.world().agent(a).unwrap();
    assert_eq!(initiator.qi, 3); // declined, not charged
}

#[test]
fn mutual_reproduction_spawns_exactly_one_child() {
    let mut vm = Vm::new();
    let a = vm.spawn_agent("A".to_string(), 3, Position::origin());
    let b = vm.spawn_agent("B".to_string(), 3, Position::origin());

    let tick = vm.step(&[
        ActionRequest::new(a, Action::Reproduce { partner: b }),
        ActionRequest::new(b, Action::Reproduce { partner: a }),
    ]);

    assert!(tick.rejections.is_empty());
    assert_eq!(vm.world.agents.len(), 3); // exactly one child, never two
    let initiator = vm.world().agent(a).unwrap();
    let partner = vm.world().agent(b).unwrap();
    assert_eq!(initiator.qi, 2); // the initiator pays 1 Qi
    assert_eq!(partner.qi, 3); // the partner is not charged
    let child = vm.world().agent(3).unwrap();
    assert_eq!(child.qi, 1);
    assert_eq!(child.name, "Child-1-2");
    assert!(tick.events.iter().any(|e| matches!(
        e,
        Event::AgentReproduced { parent_a: 1, parent_b: 2, child_id: 3 }
    )));
}

#[test]
fn reproduction_with_partner_out_of_zone_is_rejected() {
    let mut vm = Vm::new();
    let a = vm.spawn_agent("A".to_string(), 3, Position::origin());
    let b = vm.spawn_agent("B".to_string(), 3, Position { x: 100, y: 0, z: 0 });

    let tick = vm.step(&[
        ActionRequest::new(a, Action::Reproduce { partner: b }),
        ActionRequest::new(b, Action::Reproduce { partner: a }),
    ]);

    assert_eq!(tick.rejections.len(), 2);
    assert!(matches!(
        tick.rejections[0].error,
        ActionError::PartnerOutOfZone { .. }
    ));
    assert_eq!(vm.world.agents.len(), 2);
}

#[test]
fn reproduction_with_missing_partner_is_rejected() {
    let mut vm = Vm::new();
    let a = vm.spawn_agent("A".to_string(), 3, Position::origin());

    let tick = vm.step(&[ActionRequest::new(a, Action::Reproduce { partner: 9 })]);

    assert_eq!(tick.rejections.len(), 1);
    assert!(matches!(
        tick.rejections[0].error,
        ActionError::PartnerNotFound { partner: 9, .. }
    ));
}

#[test]
fn unknown_agent_request_is_rejected() {
    let mut vm = Vm::new();
    let tick = vm.step(&[ActionRequest::new(7, Action::Idle)]);
    assert_eq!(tick.rejections.len(), 1);
    assert!(matches!(
        tick.rejections[0].error,
        ActionError::AgentNotFound(7)
    ));
}

#[test]
fn broke_agent_cannot_move() {
    let mut vm = Vm::new();
    let agent_id = vm.spawn_agent("Pauper".to_string(), 0, Position::origin());

    let tick = vm.step(&[ActionRequest::new(
        agent_id,
        Action::Move { dx: 1, dy: 0, dz: 0 },
    )]);

    assert_eq!(tick.rejections.len(), 1);
    assert!(matches!(
        tick.rejections[0].error,
        ActionError::InsufficientQi { required: 1, available: 0, .. }
    ));
}

#[test]
fn total_qi_stays_under_cap_across_many_ticks() {
    let mut vm = Vm::new();
    vm.set_max_qi_supply(10);
    let agent_id = vm.spawn_agent("Saver".to_string(), 2, Position::origin());
    vm.seed_qi_source(Position { x: 1, y: 0, z: 0 }, 6, 3);
    if let Some(src) = vm.world.qi_sources.iter_mut().find(|s| s.id == 1) {
        src.current = 0;
    }

    for _ in 0..8 {
        let _ = vm.step(&[ActionRequest::new(
            agent_id,
            Action::HarvestOre { ore: OreKind::Qi, source_id: 0 },
        )]);
        assert!(vm.world.total_qi_supply() <= 10);
    }
}

#[test]
fn seeded_source_appears_in_first_scan_report() {
    let mut vm = Vm::new();
    let agent_id = vm.spawn_agent("Scout".to_string(), 3, Position::origin());
    let sid = vm.seed_qi_source(Position { x: 2, y: -1, z: 0 }, 7, 4);

    let tick = vm.step(&[ActionRequest::new(agent_id, Action::Scan)]);

    let report = tick
        .events
        .iter()
        .find_map(|e| match e {
            Event::ScanReport { nearby_qi_sources, .. } => Some(nearby_qi_sources.clone()),
            _ => None,
        })
        .expect("scan report missing");
    let snap = report.iter().find(|s| s.id == sid).expect("seeded source missing");
    assert_eq!(snap.position, Position { x: 2, y: -1, z: 0 });
    assert_eq!(snap.available, 7); // a full source is untouched by recharge
    assert_eq!(snap.capacity, 7);
}

#[test]
fn named_source_harvest_drains_three_and_reports_remaining() {
    let mut vm = Vm::new();
    let agent_id = vm.spawn_agent("Harvester".to_string(), 3, Position::origin());
    let sid = vm.seed_qi_source(Position { x: 1, y: 0, z: 0 }, 5, 0);

    let tick = vm.step(&[ActionRequest::new(
        agent_id,
        Action::HarvestOre { ore: OreKind::Qi, source_id: 0 },
    )]);

    assert!(tick.rejections.is_empty());
    // cost 1 Qi, gain 3: net +2
    assert_eq!(vm.world().agent(agent_id).unwrap().qi, 5);
    assert!(tick.events.iter().any(|e| matches!(
        e,
        Event::OreNodeHarvested { source_id, amount: 3, remaining: 2, .. } if *source_id == sid
    )));
}

#[test]
fn draining_a_source_emits_drained_event() {
    let mut vm = Vm::new();
    let agent_id = vm.spawn_agent("Harvester".to_string(), 3, Position::origin());
    let sid = vm.seed_qi_source(Position::origin(), 3, 0);

    let tick = vm.step(&[ActionRequest::new(
        agent_id,
        Action::HarvestOre { ore: OreKind::Qi, source_id: sid },
    )]);

    assert!(tick.rejections.is_empty());
    assert!(tick.events.iter().any(|e| matches!(
        e,
        Event::OreNodeDrained { source_id, .. } if *source_id == sid
    )));
}

#[test]
fn move_discovers_new_zone() {
    let mut vm = Vm::new();
    let agent_id = vm.spawn_agent("Walker".to_string(), 10, Position { x: 15, y: 0, z: 0 });

    let _ = vm.step(&[ActionRequest::new(
        agent_id,
        Action::Move { dx: 1, dy: 0, dz: 0 },
    )]);

    let agent = vm.world().agent(agent_id).unwrap();
    assert_eq!(agent.discovered_zones.len(), 2);
}

#[test]
fn events_accumulate_in_the_permanent_log() {
    let mut vm = Vm::new();
    let agent_id = vm.spawn_agent("Clerk".to_string(), 2, Position::origin());
    let before = vm.world().events().len();
    let tick = vm.step(&[ActionRequest::new(agent_id, Action::Idle)]);
    let after = vm.world().events().len();
    assert_eq!(after, before + tick.events.len());
    assert!(matches!(tick.events[0], Event::TickStarted { tick: 1 }));
    assert!(matches!(
        tick.events[tick.events.len() - 1],
        Event::TickCompleted { tick: 1 }
    ));
}
