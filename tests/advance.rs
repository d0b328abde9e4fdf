use craft_queue::driver::{tick_player_craft_queue, TickTimer, TICK_INTERVAL_MS};
use craft_queue::ledger::{LedgerError, ResourceLedger, MAX_QUANTITY};
use craft_queue::queue::{advance_queue, CraftQueue, CraftTask, TickEvent};
use craft_queue::recipe::{RecipeDefinition, RecipeHandle, RecipeRegistry, RegistryError};
use craft_queue::resource::{ResourceAmount, ResourceKind};

fn ore_recipe(kind: ResourceKind, amount: u64, duration_ms: u64) -> RecipeDefinition {
    RecipeDefinition::new(Vec::new(), vec![ResourceAmount::new(kind, amount)], duration_ms)
}

fn queue_of(tasks: &[CraftTask]) -> CraftQueue {
    let mut q = CraftQueue::new();
    for t in tasks {
        q.push(*t);
    }
    q
}

#[test]
fn short_budget_leaves_task_pending() {
    let mut reg = RecipeRegistry::new();
    let h = reg.register(ore_recipe(ResourceKind::CopperOre, 1, 5000));
    let mut q = queue_of(&[CraftTask::new(h)]);
    let mut l = ResourceLedger::new();
    let events = advance_queue(&mut q, &mut l, &reg, 3000);
    assert!(events.is_empty());
    assert_eq!(q.len(), 1);
    assert_eq!(q.get(0), Some(CraftTask { recipe: h, time_spent_ms: 3000 }));
    assert_eq!(l.balance(ResourceKind::CopperOre), 0);
}

#[test]
fn full_budget_completes_and_credits() {
    let mut reg = RecipeRegistry::new();
    let h = reg.register(RecipeDefinition::new(
        Vec::new(),
        vec![
            ResourceAmount::new(ResourceKind::CopperOre, 2),
            ResourceAmount::new(ResourceKind::IronOre, 3),
        ],
        5000,
    ));
    let mut q = queue_of(&[CraftTask::new(h)]);
    let mut l = ResourceLedger::new();
    l.credit(ResourceKind::IronOre, 10).unwrap();
    let events = advance_queue(&mut q, &mut l, &reg, 5000);
    assert_eq!(events, vec![TickEvent::Completed(h)]);
    assert_eq!(q.len(), 0);
    assert_eq!(l.balance(ResourceKind::CopperOre), 2);
    assert_eq!(l.balance(ResourceKind::IronOre), 13);
}

#[test]
fn surplus_carries_to_next_task() {
    let mut reg = RecipeRegistry::new();
    let a = reg.register(ore_recipe(ResourceKind::CopperOre, 1, 2000));
    let b = reg.register(ore_recipe(ResourceKind::IronOre, 1, 4000));
    let mut q = queue_of(&[CraftTask::new(a), CraftTask::new(b)]);
    let mut l = ResourceLedger::new();
    let events = advance_queue(&mut q, &mut l, &reg, 3500);
    assert_eq!(events, vec![TickEvent::Completed(a)]);
    assert_eq!(q.get(0), Some(CraftTask { recipe: b, time_spent_ms: 1500 }));
    assert_eq!(l.balance(ResourceKind::CopperOre), 1);
    assert_eq!(l.balance(ResourceKind::IronOre), 0);
}

#[test]
fn zero_budget_changes_nothing() {
    let mut reg = RecipeRegistry::new();
    let h = reg.register(ore_recipe(ResourceKind::CopperOre, 1, 0));
    let mut q = queue_of(&[CraftTask { recipe: h, time_spent_ms: 0 }, CraftTask::new(RecipeHandle { id: 7 })]);
    let mut l = ResourceLedger::new();
    let events = advance_queue(&mut q, &mut l, &reg, 0);
    assert!(events.is_empty());
    assert_eq!(q.len(), 2);
    assert_eq!(q.get(0), Some(CraftTask { recipe: h, time_spent_ms: 0 }));
    assert_eq!(q.get(1), Some(CraftTask::new(RecipeHandle { id: 7 })));
    assert_eq!(l, ResourceLedger::new());
}

#[test]
fn multi_task_rollover() {
    let mut reg = RecipeRegistry::new();
    let a = reg.register(ore_recipe(ResourceKind::CopperOre, 1, 5000));
    let b = reg.register(ore_recipe(ResourceKind::IronOre, 1, 10000));
    let mut q = queue_of(&[CraftTask::new(a), CraftTask::new(b)]);
    let mut l = ResourceLedger::new();
    let events = advance_queue(&mut q, &mut l, &reg, 12000);
    assert_eq!(events, vec![TickEvent::Completed(a)]);
    assert_eq!(q.len(), 1);
    assert_eq!(q.get(0), Some(CraftTask { recipe: b, time_spent_ms: 7000 }));
    assert_eq!(l.balance(ResourceKind::CopperOre), 1);
    assert_eq!(l.balance(ResourceKind::IronOre), 0);
}

#[test]
fn empty_queue_is_noop() {
    let reg = RecipeRegistry::new();
    for budget in [0u64, 1, 1000, u64::MAX] {
        let mut q = CraftQueue::new();
        let mut l = ResourceLedger::new();
        let events = advance_queue(&mut q, &mut l, &reg, budget);
        assert!(events.is_empty());
        assert_eq!(q.len(), 0);
        assert_eq!(l, ResourceLedger::new());
    }
}

#[test]
fn dangling_reference_is_dropped() {
    let mut reg = RecipeRegistry::new();
    let gone = reg.register(ore_recipe(ResourceKind::IronOre, 4, 1000));
    let kept = reg.register(ore_recipe(ResourceKind::CopperOre, 1, 3000));
    assert!(reg.deregister(gone));
    assert!(!reg.deregister(gone));
    let mut q = queue_of(&[CraftTask::new(gone), CraftTask::new(kept)]);
    let mut l = ResourceLedger::new();
    let events = advance_queue(&mut q, &mut l, &reg, 1000);
    assert_eq!(events, vec![TickEvent::Dropped(gone)]);
    assert_eq!(q.len(), 1);
    assert_eq!(q.get(0), Some(CraftTask { recipe: kept, time_spent_ms: 1000 }));
    assert_eq!(l.balance(ResourceKind::IronOre), 0);
}

#[test]
fn copper_ore_completes_on_tick_twenty_one() {
    let mut reg = RecipeRegistry::new();
    let h = reg.register(ore_recipe(ResourceKind::CopperOre, 1, 20833));
    let mut q = queue_of(&[CraftTask::new(h)]);
    let mut l = ResourceLedger::new();
    for tick in 1..=20u64 {
        let events = advance_queue(&mut q, &mut l, &reg, 1000);
        assert!(events.is_empty());
        assert_eq!(q.get(0), Some(CraftTask { recipe: h, time_spent_ms: tick * 1000 }));
    }
    let events = advance_queue(&mut q, &mut l, &reg, 1000);
    assert_eq!(events, vec![TickEvent::Completed(h)]);
    assert_eq!(q.len(), 0);
    assert_eq!(l.balance(ResourceKind::CopperOre), 1);
    assert_eq!(l.balance(ResourceKind::IronOre), 0);
}

#[test]
fn zero_duration_recipe_completes_without_budget_use() {
    let mut reg = RecipeRegistry::new();
    let z = reg.register(ore_recipe(ResourceKind::IronOre, 1, 0));
    let mut q = queue_of(&[CraftTask::new(z), CraftTask::new(z), CraftTask::new(z)]);
    let mut l = ResourceLedger::new();
    let events = advance_queue(&mut q, &mut l, &reg, 1);
    assert_eq!(events.len(), 3);
    assert_eq!(q.len(), 0);
    assert_eq!(l.balance(ResourceKind::IronOre), 3);
}

#[test]
fn overspent_task_completes_at_once() {
    let mut reg = RecipeRegistry::new();
    let h = reg.register(ore_recipe(ResourceKind::CopperOre, 1, 100));
    let mut q = queue_of(&[CraftTask { recipe: h, time_spent_ms: 500 }, CraftTask::new(h)]);
    let mut l = ResourceLedger::new();
    let events = advance_queue(&mut q, &mut l, &reg, 50);
    assert_eq!(events, vec![TickEvent::Completed(h)]);
    assert_eq!(q.get(0), Some(CraftTask { recipe: h, time_spent_ms: 50 }));
}

#[test]
fn credit_clamps_on_overflow() {
    let mut l = ResourceLedger::new();
    assert_eq!(l.credit(ResourceKind::CopperOre, MAX_QUANTITY - 1), Ok(()));
    assert_eq!(l.credit(ResourceKind::CopperOre, 5), Err(LedgerError::Overflow));
    assert_eq!(l.balance(ResourceKind::CopperOre), MAX_QUANTITY);
    assert_eq!(l.balance(ResourceKind::IronOre), 0);
}

#[test]
fn completion_credit_clamps_on_overflow() {
    let mut reg = RecipeRegistry::new();
    let h = reg.register(ore_recipe(ResourceKind::IronOre, 10, 1));
    let mut q = queue_of(&[CraftTask::new(h)]);
    let mut l = ResourceLedger::new();
    l.credit(ResourceKind::IronOre, MAX_QUANTITY - 3).unwrap();
    advance_queue(&mut q, &mut l, &reg, 1);
    assert_eq!(l.balance(ResourceKind::IronOre), MAX_QUANTITY);
}

#[test]
fn debit_checks_balance() {
    let mut l = ResourceLedger::new();
    l.credit(ResourceKind::IronOre, 4).unwrap();
    assert_eq!(l.debit(ResourceKind::IronOre, 5), Err(LedgerError::InsufficientResource));
    assert_eq!(l.balance(ResourceKind::IronOre), 4);
    assert_eq!(l.debit(ResourceKind::IronOre, 3), Ok(()));
    assert_eq!(l.balance(ResourceKind::IronOre), 1);
    assert_eq!(l.debit(ResourceKind::CopperOre, 1), Err(LedgerError::InsufficientResource));
}

#[test]
fn registry_lookup_and_not_found() {
    let mut reg = RecipeRegistry::new();
    let a = reg.register(ore_recipe(ResourceKind::CopperOre, 1, 20833));
    let b = reg.register(ore_recipe(ResourceKind::IronOre, 2, 100));
    assert_eq!(a, RecipeHandle { id: 0 });
    assert_eq!(b, RecipeHandle { id: 1 });
    assert_eq!(reg.len(), 2);
    assert_eq!(reg.lookup(a).unwrap().craft_duration_ms, 20833);
    assert_eq!(reg.lookup(b).unwrap().outputs, vec![ResourceAmount::new(ResourceKind::IronOre, 2)]);
    assert!(matches!(reg.lookup(RecipeHandle { id: 2 }), Err(RegistryError::NotFound)));
    reg.deregister(a);
    assert!(matches!(reg.lookup(a), Err(RegistryError::NotFound)));
    assert!(reg.lookup(b).is_ok());
}

#[test]
fn timer_fires_each_interval_and_resets() {
    let mut t = TickTimer::new(1000);
    assert!(!t.tick(400));
    assert_eq!(t.elapsed_ms, 400);
    assert!(!t.tick(599));
    assert!(t.tick(1));
    assert_eq!(t.elapsed_ms, 0);
    assert!(t.tick(2500));
    assert_eq!(t.elapsed_ms, 0);
    t.tick(10);
    t.reset();
    assert_eq!(t.elapsed_ms, 0);
    assert_eq!(t.interval_ms, 1000);
}

#[test]
fn tick_advances_by_one_interval_when_fired() {
    let mut reg = RecipeRegistry::new();
    let h = reg.register(ore_recipe(ResourceKind::CopperOre, 1, 20833));
    let mut q = queue_of(&[CraftTask::new(h)]);
    let mut l = ResourceLedger::new();
    let mut t = TickTimer::new(TICK_INTERVAL_MS);
    assert!(tick_player_craft_queue(&mut t, 600, &mut q, &mut l, &reg).is_empty());
    assert_eq!(q.get(0), Some(CraftTask { recipe: h, time_spent_ms: 0 }));
    tick_player_craft_queue(&mut t, 3000, &mut q, &mut l, &reg);
    assert_eq!(q.get(0), Some(CraftTask { recipe: h, time_spent_ms: 1000 }));
    let mut completed = Vec::new();
    for _ in 0..20 {
        completed.extend(tick_player_craft_queue(&mut t, 1000, &mut q, &mut l, &reg));
    }
    assert_eq!(completed, vec![TickEvent::Completed(h)]);
    assert_eq!(l.balance(ResourceKind::CopperOre), 1);
}

#[test]
fn replaced_recipe_applies_from_next_advance() {
    let mut reg = RecipeRegistry::new();
    let h = reg.register(ore_recipe(ResourceKind::CopperOre, 1, 10000));
    let mut q = queue_of(&[CraftTask::new(h)]);
    let mut l = ResourceLedger::new();
    advance_queue(&mut q, &mut l, &reg, 4000);
    assert_eq!(reg.replace(h, ore_recipe(ResourceKind::IronOre, 2, 3000)), Ok(()));
    assert_eq!(reg.replace(RecipeHandle { id: 9 }, ore_recipe(ResourceKind::IronOre, 2, 3000)), Err(RegistryError::NotFound));
    let events = advance_queue(&mut q, &mut l, &reg, 1);
    assert_eq!(events, vec![TickEvent::Completed(h)]);
    assert_eq!(l.balance(ResourceKind::IronOre), 2);
    assert_eq!(l.balance(ResourceKind::CopperOre), 0);
}

#[test]
fn remaining_tasks_keep_their_order() {
    let mut reg = RecipeRegistry::new();
    let a = reg.register(ore_recipe(ResourceKind::CopperOre, 1, 100));
    let b = reg.register(ore_recipe(ResourceKind::IronOre, 1, 200));
    let c = reg.register(ore_recipe(ResourceKind::CopperOre, 5, 300));
    let mut q = queue_of(&[CraftTask::new(a), CraftTask::new(b), CraftTask::new(c), CraftTask::new(a)]);
    let mut l = ResourceLedger::new();
    let events = advance_queue(&mut q, &mut l, &reg, 350);
    assert_eq!(events, vec![TickEvent::Completed(a), TickEvent::Completed(b)]);
    assert_eq!(q.len(), 2);
    assert_eq!(q.get(0), Some(CraftTask { recipe: c, time_spent_ms: 50 }));
    assert_eq!(q.get(1), Some(CraftTask::new(a)));
    assert_eq!(q.get(2), None);
    assert_eq!(l.balance(ResourceKind::CopperOre), 1);
    assert_eq!(l.balance(ResourceKind::IronOre), 1);
}

#[test]
fn outputs_of_one_kind_add_up() {
    let mut l = ResourceLedger::new();
    l.credit_all(&vec![
        ResourceAmount::new(ResourceKind::CopperOre, 2),
        ResourceAmount::new(ResourceKind::IronOre, 7),
        ResourceAmount::new(ResourceKind::CopperOre, 3),
    ]);
    assert_eq!(l.balance(ResourceKind::CopperOre), 5);
    assert_eq!(l.balance(ResourceKind::IronOre), 7);
}
