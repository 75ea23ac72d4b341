use vstd::prelude::*;

use crate::action::Action;

verus! {

/// One call of a component's update method: the queued action it gets, by
/// position in the cycle, and the component, by registration order.
#[derive(Debug, Clone, Copy, PartialEq, Eq, Structural)]
pub struct Delivery {
    pub action: usize,
    pub component: usize,
}

/// The calls for action `k`: every component once, in registration order.
pub open spec fn row(k: nat, n: nat) -> Seq<Delivery> {
    Seq::new(n, |j: int| Delivery { action: k as usize, component: j as usize })
}

/// The calls of one cycle over `a` actions and `n` components: the actions in
/// queue order, and for each one the components in registration order.
pub open spec fn plan(a: nat, n: nat) -> Seq<Delivery>
    decreases a,
{
    if a == 0 {
        Seq::empty()
    } else {
        plan((a - 1) as nat, n) + row((a - 1) as nat, n)
    }
}

/// For one queued action, each of the `n` components is called exactly once,
/// in registration order.
pub proof fn lemma_fan_out(n: nat)
    ensures
        plan(1, n).len() == n,
        forall|j: int| 0 <= j < n ==> #[trigger] plan(1, n)[j] == (Delivery { action: 0, component: j as usize }),
{
    assert(plan(0, n) == Seq::<Delivery>::empty());
    assert(plan(1, n) =~= row(0, n));
}

/// The queue of actions that the main loop routes to every component.
#[derive(Debug)]
pub struct Router {
    queue: Vec<Action>,
    components: usize,
}

impl Router {
    pub closed spec fn pending(&self) -> Seq<Action> {
        self.queue@
    }

    pub closed spec fn component_count(&self) -> nat {
        self.components as nat
    }

    /// A router with an empty queue and no components.
    pub fn new() -> (r: Router)
        ensures
            r.pending() == Seq::<Action>::empty(),
            r.component_count() == 0,
    {
        Router { queue: Vec::new(), components: 0 }
    }

    /// Registers one more component and gives its position in the order of calls.
    pub fn register(&mut self) -> (r: usize)
        requires
            old(self).component_count() < usize::MAX,
        ensures
            r == old(self).component_count(),
            final(self).component_count() == old(self).component_count() + 1,
            final(self).pending() == old(self).pending(),
    {
        let r = self.components;
        self.components = self.components + 1;
        r
    }

    pub fn components(&self) -> (r: usize)
        ensures
            r == self.component_count(),
    {
        self.components
    }

    /// Puts an action at the back of the queue.
    pub fn enqueue(&mut self, a: Action)
        ensures
            final(self).pending() == old(self).pending().push(a),
            final(self).component_count() == old(self).component_count(),
    {
        self.queue.push(a);
    }

    /// Takes the actions of this cycle, in the order they were queued. What is
    /// queued from here on waits for the next cycle.
    pub fn take_cycle(&mut self) -> (r: Vec<Action>)
        ensures
            r@ == old(self).pending(),
            final(self).pending() == Seq::<Action>::empty(),
            final(self).component_count() == old(self).component_count(),
    {
        let mut r: Vec<Action> = Vec::new();
        std::mem::swap(&mut r, &mut self.queue);
        r
    }

    /// The calls of one cycle over `actions` queued actions.
    pub fn deliveries(&self, actions: usize) -> (r: Vec<Delivery>)
        ensures
            r@ == plan(actions as nat, self.component_count()),
    {
        let n = self.components;
        let mut r: Vec<Delivery> = Vec::new();
        let mut k: usize = 0;
        while k < actions
            invariant
                k <= actions,
                n == self.component_count(),
                r@ == plan(k as nat, n as nat),
            decreases actions - k,
        {
            let ghost before = r@;
            let mut j: usize = 0;
            while j < n
                invariant
                    k < actions,
                    j <= n,
                    r@ == before + row(k as nat, n as nat).take(j as int),
                decreases n - j,
            {
                r.push(Delivery { action: k, component: j });
                j = j + 1;
                assert(r@ =~= before + row(k as nat, n as nat).take(j as int));
            }
            assert(row(k as nat, n as nat).take(n as int) =~= row(k as nat, n as nat));
            k = k + 1;
            assert(plan(k as nat, n as nat) == plan((k - 1) as nat, n as nat) + row((k - 1) as nat, n as nat));
        }
        r
    }
}

} // verus!
