use vstd::prelude::*;

use crate::ledger::{lemma_credit_all_balance, total_of, ResourceLedger, MAX_QUANTITY};
use crate::resource::ResourceKind;
use crate::recipe::{RecipeHandle, RecipeRegistry};

verus! {

/// Progress made on one recipe: the recipe it refers to, by handle, and the
/// craft time already spent on it.
#[derive(Clone, Copy, Debug, PartialEq, Eq, Structural)]
pub struct CraftTask {
    pub recipe: RecipeHandle,
    pub time_spent_ms: u64,
}

impl CraftTask {
    /// A task on `recipe` with no time spent yet.
    pub fn new(recipe: RecipeHandle) -> (r: CraftTask)
        ensures
            r.recipe == recipe,
            r.time_spent_ms == 0,
    {
        CraftTask { recipe, time_spent_ms: 0 }
    }
}

/// What happened to a task during one advancement.
#[derive(Clone, Copy, Debug, PartialEq, Eq, Structural)]
pub enum TickEvent {
    /// The task on this recipe reached its duration, was credited and left the queue.
    Completed(RecipeHandle),
    /// The task referred to a recipe the registry no longer holds and was dropped.
    Dropped(RecipeHandle),
}

/// An actor's pending tasks, oldest first. Only the head receives craft time.
pub struct CraftQueue {
    pub items: Vec<CraftTask>,
}

impl CraftQueue {
    /// The tasks of the queue, head first.
    pub open spec fn view(&self) -> Seq<CraftTask> {
        self.items@
    }

    /// An empty queue.
    pub fn new() -> (r: CraftQueue)
        ensures
            r@ == Seq::<CraftTask>::empty(),
    {
        CraftQueue { items: Vec::new() }
    }

    /// Appends `task` at the tail.
    pub fn push(&mut self, task: CraftTask)
        ensures
            final(self)@ == old(self)@.push(task),
    {
        self.items.push(task);
    }

    /// The number of pending tasks.
    pub fn len(&self) -> (r: usize)
        ensures
            r == self@.len(),
    {
        self.items.len()
    }

    /// The task at position `i`, the head being at 0.
    pub fn get(&self, i: usize) -> (r: Option<CraftTask>)
        ensures
            i < self@.len() ==> r == Some(self@[i as int]),
            i >= self@.len() ==> r is None,
    {
        if i < self.items.len() {
            Some(self.items[i])
        } else {
            None
        }
    }
}

/// The craft time still owed to a task that has spent `spent` of `duration`.
pub open spec fn remaining(duration: u64, spent: u64) -> u64 {
    if spent < duration {
        (duration - spent) as u64
    } else {
        0
    }
}

/// The outcome of granting `budget` milliseconds of craft time to `tasks`:
/// the tasks left, the ledger after crediting, and what happened to each task touched.
///
/// While time is left and a task is pending, the head is resolved. A head whose
/// recipe is gone is dropped. Otherwise it receives as much of the budget as it
/// still needs; if that fills its duration its outputs are credited, it leaves the
/// queue and the rest of the budget goes on to the next task; if not, it keeps its
/// progress at the head and the budget is spent.
pub open spec fn spec_advance(
    tasks: Seq<CraftTask>,
    ledger: ResourceLedger,
    registry: RecipeRegistry,
    budget: u64,
) -> (Seq<CraftTask>, ResourceLedger, Seq<TickEvent>)
    decreases tasks.len(),
{
    if tasks.len() == 0 || budget == 0 {
        (tasks, ledger, Seq::empty())
    } else {
        let head = tasks[0];
        match registry.spec_lookup(head.recipe) {
            None => {
                let rest = spec_advance(tasks.drop_first(), ledger, registry, budget);
                (rest.0, rest.1, seq![TickEvent::Dropped(head.recipe)] + rest.2)
            },
            Some(r) => {
                let owed = remaining(r.craft_duration_ms, head.time_spent_ms);
                if budget >= owed {
                    let rest = spec_advance(
                        tasks.drop_first(),
                        ledger.spec_credit_all(r.outputs@),
                        registry,
                        (budget - owed) as u64,
                    );
                    (rest.0, rest.1, seq![TickEvent::Completed(head.recipe)] + rest.2)
                } else {
                    (
                        tasks.update(0, CraftTask { time_spent_ms: (head.time_spent_ms + budget) as u64, ..head }),
                        ledger,
                        Seq::empty(),
                    )
                }
            },
        }
    }
}

/// A budget shorter than a fresh task's duration leaves that task alone in the
/// queue, pending, with the whole budget spent on it; nothing is credited.
pub proof fn lemma_short_budget_keeps_task(
    task: CraftTask,
    ledger: ResourceLedger,
    registry: RecipeRegistry,
    budget: u64,
)
    requires
        task.time_spent_ms == 0,
        registry.spec_lookup(task.recipe) is Some,
        budget < registry.spec_lookup(task.recipe)->Some_0.craft_duration_ms,
    ensures
        spec_advance(seq![task], ledger, registry, budget) == (
            seq![CraftTask { recipe: task.recipe, time_spent_ms: budget }],
            ledger,
            Seq::<TickEvent>::empty(),
        ),
{
    if budget > 0 {
        assert(seq![task].update(0, CraftTask { recipe: task.recipe, time_spent_ms: budget })
            =~= seq![CraftTask { recipe: task.recipe, time_spent_ms: budget }]);
    } else {
        assert(task == CraftTask { recipe: task.recipe, time_spent_ms: budget });
    }
}

/// A positive budget of at least the head's duration completes a fresh head task:
/// it leaves the queue, its outputs are credited, and what is left of the budget
/// goes on to the tasks behind it within the same call. A lone task leaves the
/// queue empty with only its outputs credited: each kind rises by its total in
/// the outputs, clamped at `MAX_QUANTITY`.
pub proof fn lemma_full_budget_completes_head(
    tasks: Seq<CraftTask>,
    ledger: ResourceLedger,
    registry: RecipeRegistry,
    budget: u64,
)
    requires
        tasks.len() > 0,
        tasks[0].time_spent_ms == 0,
        registry.spec_lookup(tasks[0].recipe) is Some,
        0 < budget,
        registry.spec_lookup(tasks[0].recipe)->Some_0.craft_duration_ms <= budget,
    ensures
        ({
            let r = registry.spec_lookup(tasks[0].recipe)->Some_0;
            let rest = spec_advance(
                tasks.drop_first(),
                ledger.spec_credit_all(r.outputs@),
                registry,
                (budget - r.craft_duration_ms) as u64,
            );
            &&& spec_advance(tasks, ledger, registry, budget) == (
                rest.0,
                rest.1,
                seq![TickEvent::Completed(tasks[0].recipe)] + rest.2,
            )
            &&& tasks.len() == 1 ==> spec_advance(tasks, ledger, registry, budget) == (
                Seq::<CraftTask>::empty(),
                ledger.spec_credit_all(r.outputs@),
                seq![TickEvent::Completed(tasks[0].recipe)],
            )
            &&& tasks.len() == 1 ==> forall|k: ResourceKind| #[trigger] spec_advance(tasks, ledger, registry, budget).1.spec_balance(k)
                == if ledger.spec_balance(k) + total_of(r.outputs@, k) > MAX_QUANTITY {
                    MAX_QUANTITY as int
                } else {
                    ledger.spec_balance(k) + total_of(r.outputs@, k)
                }
        }),
{
    let r = registry.spec_lookup(tasks[0].recipe)->Some_0;
    assert forall|k: ResourceKind| #[trigger] ledger.spec_credit_all(r.outputs@).spec_balance(k)
        == if ledger.spec_balance(k) + total_of(r.outputs@, k) > MAX_QUANTITY {
            MAX_QUANTITY as int
        } else {
            ledger.spec_balance(k) + total_of(r.outputs@, k)
        } by {
        lemma_credit_all_balance(ledger, r.outputs@, k);
    }
    if tasks.len() == 1 {
        assert(tasks.drop_first() =~= Seq::<CraftTask>::empty());
        assert(seq![TickEvent::Completed(tasks[0].recipe)] + Seq::<TickEvent>::empty()
            =~= seq![TickEvent::Completed(tasks[0].recipe)]);
    }
}

/// A zero budget changes nothing: same tasks, same ledger, no events.
pub proof fn lemma_zero_budget_changes_nothing(
    tasks: Seq<CraftTask>,
    ledger: ResourceLedger,
    registry: RecipeRegistry,
)
    ensures
        spec_advance(tasks, ledger, registry, 0) == (tasks, ledger, Seq::<TickEvent>::empty()),
{
}

/// An empty queue stays empty under any budget, with the ledger unchanged and no events.
pub proof fn lemma_empty_queue_changes_nothing(
    ledger: ResourceLedger,
    registry: RecipeRegistry,
    budget: u64,
)
    ensures
        spec_advance(Seq::<CraftTask>::empty(), ledger, registry, budget) == (
            Seq::<CraftTask>::empty(),
            ledger,
            Seq::<TickEvent>::empty(),
        ),
{
}

/// A head task whose recipe no longer resolves is dropped, and the whole budget
/// goes on to the tasks behind it.
pub proof fn lemma_dangling_head_dropped(
    tasks: Seq<CraftTask>,
    ledger: ResourceLedger,
    registry: RecipeRegistry,
    budget: u64,
)
    requires
        tasks.len() > 0,
        registry.spec_lookup(tasks[0].recipe) is None,
        budget > 0,
    ensures
        ({
            let rest = spec_advance(tasks.drop_first(), ledger, registry, budget);
            spec_advance(tasks, ledger, registry, budget) == (
                rest.0,
                rest.1,
                seq![TickEvent::Dropped(tasks[0].recipe)] + rest.2,
            )
        }),
{
}

/// The queue is never reordered: what is left after an advancement is the tail of
/// the queue as it was, from some position on, where only the first task left may
/// have gained time on the same recipe. Each task that left produced exactly one
/// event, in queue order.
pub proof fn lemma_advance_keeps_order(
    tasks: Seq<CraftTask>,
    ledger: ResourceLedger,
    registry: RecipeRegistry,
    budget: u64,
)
    ensures
        ({
            let res = spec_advance(tasks, ledger, registry, budget);
            let k = tasks.len() - res.0.len();
            &&& 0 <= k <= tasks.len()
            &&& res.2.len() == k
            &&& forall|i: int| 0 <= i < k ==> (#[trigger] res.2[i] == TickEvent::Completed(tasks[i].recipe)
                || res.2[i] == TickEvent::Dropped(tasks[i].recipe))
            &&& forall|i: int| 1 <= i < res.0.len() ==> #[trigger] res.0[i] == tasks[k + i]
            &&& res.0.len() > 0 ==> res.0[0].recipe == tasks[k].recipe
                && res.0[0].time_spent_ms >= tasks[k].time_spent_ms
        }),
    decreases tasks.len(),
{
    if tasks.len() == 0 || budget == 0 {
    } else {
        let head = tasks[0];
        let rest_tasks = tasks.drop_first();
        match registry.spec_lookup(head.recipe) {
            None => {
                lemma_advance_keeps_order(rest_tasks, ledger, registry, budget);
                let rest = spec_advance(rest_tasks, ledger, registry, budget);
                let res = spec_advance(tasks, ledger, registry, budget);
                assert forall|i: int| 1 <= i < res.2.len() implies (res.2[i] == TickEvent::Completed(tasks[i].recipe)
                    || res.2[i] == TickEvent::Dropped(tasks[i].recipe)) by {
                    assert(res.2[i] == rest.2[i - 1]);
                    assert(rest_tasks[i - 1] == tasks[i]);
                }
                assert(res.2[0] == TickEvent::Dropped(tasks[0].recipe));
            },
            Some(r) => {
                let owed = remaining(r.craft_duration_ms, head.time_spent_ms);
                if budget >= owed {
                    let l2 = ledger.spec_credit_all(r.outputs@);
                    let b2 = (budget - owed) as u64;
                    lemma_advance_keeps_order(rest_tasks, l2, registry, b2);
                    let rest = spec_advance(rest_tasks, l2, registry, b2);
                    let res = spec_advance(tasks, ledger, registry, budget);
                    assert forall|i: int| 1 <= i < res.2.len() implies (res.2[i] == TickEvent::Completed(tasks[i].recipe)
                        || res.2[i] == TickEvent::Dropped(tasks[i].recipe)) by {
                        assert(res.2[i] == rest.2[i - 1]);
                        assert(rest_tasks[i - 1] == tasks[i]);
                    }
                    assert(res.2[0] == TickEvent::Completed(tasks[0].recipe));
                }
            },
        }
    }
}

/// Grants `budget_ms` of craft time to `queue`, completing tasks head first,
/// crediting their outputs to `ledger` and dropping tasks whose recipe is gone.
/// Returns one event per task completed or dropped, in queue order.
///
/// Only outputs are credited: recipe inputs are not taken from the ledger.
pub fn advance_queue(
    queue: &mut CraftQueue,
    ledger: &mut ResourceLedger,
    registry: &RecipeRegistry,
    budget_ms: u64,
) -> (events: Vec<TickEvent>)
    ensures
        (final(queue)@, *final(ledger), events@) == spec_advance(old(queue)@, *old(ledger), *registry, budget_ms),
{
    let ghost target = spec_advance(queue@, *ledger, *registry, budget_ms);
    let mut events: Vec<TickEvent> = Vec::new();
    let mut budget = budget_ms;
    while queue.items.len() > 0 && budget > 0
        invariant
            spec_advance(queue@, *ledger, *registry, budget).0 == target.0,
            spec_advance(queue@, *ledger, *registry, budget).1 == target.1,
            events@ + spec_advance(queue@, *ledger, *registry, budget).2 == target.2,
        decreases 2 * queue@.len() + if budget > 0 { 1int } else { 0int },
    {
        let ghost before = queue@;
        let head = queue.items[0];
        match registry.lookup(head.recipe) {
            Err(_) => {
                queue.items.remove(0);
                assert(queue@ == before.drop_first());
                events.push(TickEvent::Dropped(head.recipe));
                assert(events@ + spec_advance(queue@, *ledger, *registry, budget).2
                    == target.2);
            },
            Ok(r) => {
                let owed = if head.time_spent_ms < r.craft_duration_ms {
                    r.craft_duration_ms - head.time_spent_ms
                } else {
                    0
                };
                if budget >= owed {
                    budget = budget - owed;
                    ledger.credit_all(&r.outputs);
                    queue.items.remove(0);
                    assert(queue@ == before.drop_first());
                    events.push(TickEvent::Completed(head.recipe));
                    assert(events@ + spec_advance(queue@, *ledger, *registry, budget).2
                        == target.2);
                } else {
                    let progressed = CraftTask { recipe: head.recipe, time_spent_ms: head.time_spent_ms + budget };
                    queue.items.set(0, progressed);
                    budget = 0;
                    assert(events@ + spec_advance(queue@, *ledger, *registry, budget).2
                        == target.2);
                }
            },
        }
    }
    assert(events@ + Seq::<TickEvent>::empty() == events@);
    events
}

} // verus!
