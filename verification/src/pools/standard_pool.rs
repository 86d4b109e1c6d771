//! The standard pool: workers kept in priority order, each name and each
//! priority at most once.

use vstd::prelude::*;
use crate::errors::{is_invalid_format, is_missing_required, ConfigError, LoquatError};
use crate::events::package::Package;
use crate::pools::types::{spec_pool_name, PoolType};
use crate::pools::validator::PoolValidator;
use crate::pools::traits::Pool;
use crate::text::{concat2, str_eq};
use crate::time::{int_decimal, push_decimal};

verus! {

/// A worker registered in a pool: its name and its priority (lower runs first).
#[derive(Debug, Clone)]
pub struct WorkerRegistration {
    pub name: String,
    pub priority: u32,
}

/// A registration as plain values.
pub open spec fn reg_view(w: WorkerRegistration) -> (Seq<char>, u32) {
    (w.name@, w.priority)
}

/// The registrations of a sequence as plain values.
pub open spec fn regs_view(s: Seq<WorkerRegistration>) -> Seq<(Seq<char>, u32)> {
    s.map_values(|w: WorkerRegistration| reg_view(w))
}

/// Priorities strictly increase along the sequence.
pub open spec fn priority_sorted(s: Seq<(Seq<char>, u32)>) -> bool {
    forall|i: int, j: int| 0 <= i < j < s.len() ==> s[i].1 < s[j].1
}

/// No name occurs twice.
pub open spec fn names_distinct(s: Seq<(Seq<char>, u32)>) -> bool {
    forall|i: int, j: int| 0 <= i < s.len() && 0 <= j < s.len() && i != j ==> s[i].0 != s[j].0
}

/// Some worker of `s` has the name `n`.
pub open spec fn has_name(s: Seq<(Seq<char>, u32)>, n: Seq<char>) -> bool {
    exists|i: int| 0 <= i < s.len() && s[i].0 == n
}

/// Some worker of `s` has the priority `p`.
pub open spec fn has_priority(s: Seq<(Seq<char>, u32)>, p: u32) -> bool {
    exists|i: int| 0 <= i < s.len() && s[i].1 == p
}

/// Some worker of `s` other than one named `n` has the priority `p`.
pub open spec fn other_has_priority(s: Seq<(Seq<char>, u32)>, n: Seq<char>, p: u32) -> bool {
    exists|i: int| 0 <= i < s.len() && s[i].1 == p && s[i].0 != n
}

/// `t` is `s` with `w` put at its place in priority order.
pub open spec fn inserted_in_order(
    s: Seq<(Seq<char>, u32)>,
    w: (Seq<char>, u32),
    t: Seq<(Seq<char>, u32)>,
) -> bool {
    exists|k: int|
        0 <= k <= s.len() && t == s.insert(k, w) && (forall|i: int| 0 <= i < k ==> s[i].1 < w.1)
            && (forall|i: int| k <= i < s.len() ==> w.1 < s[i].1)
}

impl WorkerRegistration {
    /// A registration of the worker `name` at `priority`.
    pub fn new(name: &str, priority: u32) -> (r: Self)
        ensures
            r.name@ == name@,
            r.priority == priority,
    {
        WorkerRegistration { name: String::from_str(name), priority }
    }
}

/// Where a package goes within a pool.
#[derive(Debug, Clone, Copy, PartialEq, Eq, Structural)]
pub enum Dispatch {
    /// To the worker at this position in priority order.
    Worker(usize),
    /// No worker accepts it: on to the next pool.
    NextPool,
}

/// A pool of workers ordered by priority.
#[derive(Debug)]
pub struct StandardPool {
    pool_id: String,
    pool_type: PoolType,
    workers: Vec<WorkerRegistration>,
    validator: PoolValidator,
}

impl View for StandardPool {
    type V = Seq<(Seq<char>, u32)>;

    closed spec fn view(&self) -> Seq<(Seq<char>, u32)> {
        regs_view(self.workers@)
    }
}

impl StandardPool {
    #[verifier::type_invariant]
    spec fn well_formed(self) -> bool {
        priority_sorted(regs_view(self.workers@)) && names_distinct(regs_view(self.workers@))
    }

    /// The pool's id.
    pub closed spec fn spec_pool_id(&self) -> Seq<char> {
        self.pool_id@
    }

    /// The pool's type.
    pub closed spec fn spec_pool_type(&self) -> PoolType {
        self.pool_type
    }

    /// An empty pool of `pool_type`, with id `pool_<type name>`.
    pub fn new(pool_type: PoolType) -> (r: Self)
        ensures
            r@ == Seq::<(Seq<char>, u32)>::empty(),
            r.spec_pool_id() == "pool_"@ + spec_pool_name(pool_type),
            r.spec_pool_type() == pool_type,
    {
        let id = concat2("pool_", pool_type.name());
        let r = StandardPool {
            pool_id: id,
            pool_type,
            workers: Vec::new(),
            validator: PoolValidator::new(),
        };
        assert(r@ =~= Seq::<(Seq<char>, u32)>::empty());
        r
    }

    /// An empty pool with the given id.
    pub fn with_id(pool_id: String, pool_type: PoolType) -> (r: Self)
        ensures
            r@ == Seq::<(Seq<char>, u32)>::empty(),
            r.spec_pool_id() == pool_id@,
            r.spec_pool_type() == pool_type,
    {
        let r = StandardPool { pool_id, pool_type, workers: Vec::new(), validator: PoolValidator::new() };
        assert(r@ =~= Seq::<(Seq<char>, u32)>::empty());
        r
    }

    /// The workers in priority order.
    pub fn workers_sorted(&self) -> (r: &[WorkerRegistration])
        ensures
            regs_view(r@) == self@,
            priority_sorted(self@),
            names_distinct(self@),
    {
        proof {
            use_type_invariant(self);
        }
        self.workers.as_slice()
    }

    /// The position of the worker named `name`.
    fn index_of(&self, name: &str) -> (r: Option<usize>)
        ensures
            r matches Some(i) ==> i < self@.len() && self@[i as int].0 == name@,
            r is None ==> !has_name(self@, name@),
    {
        let n = self.workers.len();
        let mut i: usize = 0;
        while i < n
            invariant
                n == self.workers@.len(),
                i <= n,
                forall|j: int| 0 <= j < i ==> self.workers@[j].name@ != name@,
            decreases n - i,
        {
            if str_eq(self.workers[i].name.as_str(), name) {
                return Some(i);
            }
            i = i + 1;
        }
        None
    }

    /// Whether some worker has `priority`.
    fn priority_held(&self, priority: u32) -> (r: bool)
        ensures
            r == has_priority(self@, priority),
    {
        let n = self.workers.len();
        let mut i: usize = 0;
        while i < n
            invariant
                n == self.workers@.len(),
                i <= n,
                forall|j: int| 0 <= j < i ==> self.workers@[j].priority != priority,
            decreases n - i,
        {
            if self.workers[i].priority == priority {
                proof {
                    assert(self@[i as int].1 == priority);
                }
                return true;
            }
            i = i + 1;
        }
        proof {
            assert forall|j: int| 0 <= j < self@.len() implies self@[j].1 != priority by {
                assert(self@[j] == reg_view(self.workers@[j]));
            }
        }
        false
    }

    /// Whether some worker other than `name` has `priority`.
    fn priority_taken(&self, name: &str, priority: u32) -> (r: bool)
        ensures
            r == other_has_priority(self@, name@, priority),
    {
        let n = self.workers.len();
        let mut i: usize = 0;
        while i < n
            invariant
                n == self.workers@.len(),
                i <= n,
                forall|j: int|
                    0 <= j < i ==> !(self.workers@[j].priority == priority && self.workers@[j].name@
                        != name@),
            decreases n - i,
        {
            if self.workers[i].priority == priority && !str_eq(self.workers[i].name.as_str(), name) {
                proof {
                    assert(self@[i as int].1 == priority && self@[i as int].0 != name@);
                }
                return true;
            }
            i = i + 1;
        }
        proof {
            assert forall|j: int| 0 <= j < self@.len() implies !(self@[j].1 == priority
                && self@[j].0 != name@) by {
                assert(self@[j] == reg_view(self.workers@[j]));
            }
        }
        false
    }

    /// The registration of the worker named `name`.
    pub fn get_worker(&self, name: &str) -> (r: Option<&WorkerRegistration>)
        ensures
            r is None <==> !has_name(self@, name@),
            r matches Some(w) ==> reg_view(*w).0 == name@ && self@.contains(reg_view(*w)),
    {
        match self.index_of(name) {
            Some(i) => Some(&self.workers[i]),
            None => None,
        }
    }

    /// The position in priority order at which a worker of priority `p` goes.
    fn insert_position(&self, p: u32) -> (k: usize)
        requires
            !has_priority(self@, p),
        ensures
            k <= self@.len(),
            forall|i: int| 0 <= i < k ==> self@[i].1 < p,
            forall|i: int| k <= i < self@.len() ==> p < self@[i].1,
    {
        proof {
            use_type_invariant(self);
        }
        let n = self.workers.len();
        let mut k: usize = 0;
        while k < n && self.workers[k].priority < p
            invariant
                n == self.workers@.len(),
                k <= n,
                forall|i: int| 0 <= i < k ==> self.workers@[i].priority < p,
            decreases n - k,
        {
            k = k + 1;
        }
        proof {
            let s = self@;
            assert forall|i: int| k <= i < s.len() implies p < s[i].1 by {
                assert(s[i].1 != p);
                if i > k {
                    assert(s[k as int].1 < s[i].1);
                }
                assert(s[k as int].1 >= p);
            }
        }
        k
    }

    /// Put `w` at its place in priority order.
    fn insert_sorted(&mut self, w: WorkerRegistration)
        requires
            !has_priority(old(self)@, w.priority),
            !has_name(old(self)@, w.name@),
        ensures
            inserted_in_order(old(self)@, reg_view(w), final(self)@),
            final(self).spec_pool_id() == old(self).spec_pool_id(),
            final(self).spec_pool_type() == old(self).spec_pool_type(),
    {
        proof {
            use_type_invariant(&*self);
        }
        let k = self.insert_position(w.priority);
        let ghost s = self@;
        let ghost wv = reg_view(w);
        let mut workers: Vec<WorkerRegistration> = Vec::new();
        std::mem::swap(&mut workers, &mut self.workers);
        workers.insert(k, w);
        proof {
            assert(regs_view(workers@) =~= s.insert(k as int, wv));
            let t = s.insert(k as int, wv);
            assert forall|i: int, j: int| 0 <= i < j < t.len() implies t[i].1 < t[j].1 by {
                if j < k {
                } else if j == k {
                } else if i < k {
                } else if i == k {
                } else {
                }
            }
            assert forall|i: int, j: int|
                0 <= i < t.len() && 0 <= j < t.len() && i != j implies t[i].0 != t[j].0 by {
                if i == k {
                    if j < k {
                        assert(s[j] == t[j]);
                    } else {
                        assert(s[j - 1] == t[j]);
                    }
                } else if j == k {
                    if i < k {
                        assert(s[i] == t[i]);
                    } else {
                        assert(s[i - 1] == t[i]);
                    }
                }
            }
        }
        self.workers = workers;
    }

    /// Take out the worker at position `i`.
    fn remove_at(&mut self, i: usize) -> (w: WorkerRegistration)
        requires
            i < old(self)@.len(),
        ensures
            final(self)@ == old(self)@.remove(i as int),
            reg_view(w) == old(self)@[i as int],
            final(self).spec_pool_id() == old(self).spec_pool_id(),
            final(self).spec_pool_type() == old(self).spec_pool_type(),
    {
        proof {
            use_type_invariant(&*self);
        }
        let ghost s = self@;
        let mut workers: Vec<WorkerRegistration> = Vec::new();
        std::mem::swap(&mut workers, &mut self.workers);
        let w = workers.remove(i);
        proof {
            assert(regs_view(workers@) =~= s.remove(i as int));
        }
        self.workers = workers;
        w
    }

    /// Where a package goes: to the first worker in priority order that
    /// accepts it (`accepts[i]` says whether the worker at position `i` does),
    /// else on to the next pool.
    pub fn dispatch(&self, accepts: &Vec<bool>) -> (r: Dispatch)
        requires
            accepts@.len() == self@.len(),
        ensures
            r matches Dispatch::Worker(i) ==> i < accepts@.len() && accepts@[i as int] && (forall|
                j: int,
            | 0 <= j < i ==> !accepts@[j]),
            r is NextPool <==> forall|j: int| 0 <= j < accepts@.len() ==> !accepts@[j],
    {
        let n = accepts.len();
        let mut i: usize = 0;
        while i < n
            invariant
                n == accepts@.len(),
                i <= n,
                forall|j: int| 0 <= j < i ==> !accepts@[j],
            decreases n - i,
        {
            if accepts[i] {
                return Dispatch::Worker(i);
            }
            i = i + 1;
        }
        Dispatch::NextPool
    }
}

/// The message of a refused duplicate name.
pub open spec fn duplicate_name_message(name: Seq<char>, pool_id: Seq<char>) -> Seq<char> {
    "Worker '"@ + name + "' already exists in pool '"@ + pool_id + "'"@
}

/// The message of a refused duplicate priority at registration.
pub open spec fn duplicate_priority_message(p: u32, pool_id: Seq<char>) -> Seq<char> {
    "Worker priority "@ + int_decimal(p as int) + " already exists in pool '"@ + pool_id + "'"@
}

/// The message of a priority change to a priority another worker holds.
pub open spec fn priority_used_message(p: u32, pool_id: Seq<char>) -> Seq<char> {
    "Worker priority "@ + int_decimal(p as int) + " already used in pool '"@ + pool_id + "'"@
}

/// The message of an unknown worker name.
pub open spec fn worker_not_found_message(name: Seq<char>, pool_id: Seq<char>) -> Seq<char> {
    "Worker '"@ + name + "' not found in pool '"@ + pool_id + "'"@
}

/// `name` wrapped as `<before>'<name>'<middle>'<pool_id>'`.
fn name_message(before: &str, name: &str, middle: &str, pool_id: &str) -> (r: String)
    ensures
        r@ == before@ + name@ + middle@ + pool_id@ + "'"@,
{
    let mut r = String::from_str(before);
    r.append(name);
    r.append(middle);
    r.append(pool_id);
    r.append("'");
    r
}

/// `<before><p><middle><pool_id>'`.
fn priority_message(before: &str, p: u32, middle: &str, pool_id: &str) -> (r: String)
    ensures
        r@ == before@ + int_decimal(p as int) + middle@ + pool_id@ + "'"@,
{
    let mut r = String::from_str(before);
    push_decimal(p as i64, &mut r);
    r.append(middle);
    r.append(pool_id);
    r.append("'");
    r
}

impl Pool for StandardPool {
    fn pool_id(&self) -> (r: &str)
        ensures
            r@ == self.spec_pool_id(),
    {
        self.pool_id.as_str()
    }

    fn pool_type(&self) -> (r: PoolType)
        ensures
            r == self.spec_pool_type(),
    {
        self.pool_type
    }

    /// Refused when the name or the priority is already registered; otherwise
    /// the worker takes its place in priority order.
    fn register(&mut self, registration: WorkerRegistration) -> (r: Result<(), LoquatError>)
        ensures
            final(self).spec_pool_id() == old(self).spec_pool_id(),
            final(self).spec_pool_type() == old(self).spec_pool_type(),
            priority_sorted(final(self)@),
            names_distinct(final(self)@),
            r is Ok <==> !has_name(old(self)@, registration.name@) && !has_priority(
                old(self)@,
                registration.priority,
            ),
            r is Ok ==> inserted_in_order(old(self)@, reg_view(registration), final(self)@),
            r is Err ==> final(self)@ == old(self)@,
            has_name(old(self)@, registration.name@) ==> is_invalid_format(r, duplicate_name_message(registration.name@, old(self).spec_pool_id())),
            !has_name(old(self)@, registration.name@) && has_priority(
                old(self)@,
                registration.priority,
            ) ==> is_invalid_format(r, duplicate_priority_message(registration.priority, old(self).spec_pool_id())),
    {
        proof {
            use_type_invariant(&*self);
        }
        if self.index_of(registration.name.as_str()).is_some() {
            let m = name_message(
                "Worker '",
                registration.name.as_str(),
                "' already exists in pool '",
                self.pool_id.as_str(),
            );
            proof {
                reveal_strlit("Worker '");
                reveal_strlit("' already exists in pool '");
                reveal_strlit("'");
            }
            return Err(LoquatError::Config(ConfigError::InvalidFormat(m)));
        }
        if self.priority_held(registration.priority) {
            let m = priority_message(
                "Worker priority ",
                registration.priority,
                " already exists in pool '",
                self.pool_id.as_str(),
            );
            return Err(LoquatError::Config(ConfigError::InvalidFormat(m)));
        }
        self.insert_sorted(registration);
        proof {
            use_type_invariant(&*self);
        }
        Ok(())
    }

    /// Refused when no worker has the name; otherwise that worker leaves and
    /// the others keep their order.
    fn unregister(&mut self, name: &str) -> (r: Result<(), LoquatError>)
        ensures
            final(self).spec_pool_id() == old(self).spec_pool_id(),
            final(self).spec_pool_type() == old(self).spec_pool_type(),
            r is Ok <==> has_name(old(self)@, name@),
            r is Ok ==> exists|i: int|
                0 <= i < old(self)@.len() && old(self)@[i].0 == name@ && final(self)@ == old(
                    self,
                )@.remove(i),
            r is Ok ==> !has_name(final(self)@, name@),
            r is Err ==> final(self)@ == old(self)@ && is_missing_required(r, worker_not_found_message(name@, old(self).spec_pool_id())),
    {
        proof {
            use_type_invariant(&*self);
        }
        match self.index_of(name) {
            Some(i) => {
                let ghost s = self@;
                let _ = self.remove_at(i);
                proof {
                    assert(s[i as int].0 == name@);
                    assert forall|j: int| 0 <= j < self@.len() implies self@[j].0 != name@ by {
                        if j < i {
                            assert(self@[j] == s[j]);
                        } else {
                            assert(self@[j] == s[j + 1]);
                        }
                    }
                }
                Ok(())
            },
            None => {
                let m = name_message("Worker '", name, "' not found in pool '", self.pool_id.as_str());
                Err(LoquatError::Config(ConfigError::MissingRequired(m)))
            },
        }
    }

    fn worker_names(&self) -> (r: Vec<String>)
        ensures
            r@.len() == self@.len(),
            forall|i: int| 0 <= i < r@.len() ==> r@[i]@ == self@[i].0,
    {
        let n = self.workers.len();
        let mut out: Vec<String> = Vec::new();
        let mut i: usize = 0;
        while i < n
            invariant
                n == self.workers@.len(),
                i <= n,
                out@.len() == i,
                forall|j: int| 0 <= j < i ==> out@[j]@ == self.workers@[j].name@,
            decreases n - i,
        {
            out.push(self.workers[i].name.clone());
            i = i + 1;
        }
        out
    }

    fn worker_count(&self) -> (r: usize)
        ensures
            r == self@.len(),
    {
        self.workers.len()
    }

    fn has_worker(&self, name: &str) -> (r: bool)
        ensures
            r == has_name(self@, name@),
    {
        self.index_of(name).is_some()
    }

    /// Refused when no worker has the name, or another worker holds the new
    /// priority; otherwise the worker moves to its new place in priority order.
    fn set_worker_priority(&mut self, name: &str, new_priority: u32) -> (r: Result<(), LoquatError>)
        ensures
            final(self).spec_pool_id() == old(self).spec_pool_id(),
            final(self).spec_pool_type() == old(self).spec_pool_type(),
            priority_sorted(final(self)@),
            names_distinct(final(self)@),
            r is Ok <==> has_name(old(self)@, name@) && !other_has_priority(
                old(self)@,
                name@,
                new_priority,
            ),
            r is Ok ==> exists|i: int|
                0 <= i < old(self)@.len() && old(self)@[i].0 == name@ && inserted_in_order(
                    old(self)@.remove(i),
                    (name@, new_priority),
                    final(self)@,
                ),
            r is Err ==> final(self)@ == old(self)@,
            !has_name(old(self)@, name@) ==> is_missing_required(r, worker_not_found_message(name@, old(self).spec_pool_id())),
            has_name(old(self)@, name@) && other_has_priority(old(self)@, name@, new_priority)
                ==> is_invalid_format(r, priority_used_message(new_priority, old(self).spec_pool_id())),
    {
        proof {
            use_type_invariant(&*self);
        }
        match self.index_of(name) {
            None => {
                let m = name_message("Worker '", name, "' not found in pool '", self.pool_id.as_str());
                Err(LoquatError::Config(ConfigError::MissingRequired(m)))
            },
            Some(i) => {
                if self.priority_taken(name, new_priority) {
                    let m = priority_message(
                        "Worker priority ",
                        new_priority,
                        " already used in pool '",
                        self.pool_id.as_str(),
                    );
                    return Err(LoquatError::Config(ConfigError::InvalidFormat(m)));
                }
                let ghost s = self@;
                let mut w = self.remove_at(i);
                let ghost s2 = self@;
                proof {
                    assert(s2 == s.remove(i as int));
                    assert forall|j: int| 0 <= j < s2.len() implies s2[j].1 != new_priority
                        && s2[j].0 != name@ by {
                        if j < i {
                            assert(s2[j] == s[j]);
                        } else {
                            assert(s2[j] == s[j + 1]);
                        }
                    }
                }
                w.priority = new_priority;
                self.insert_sorted(w);
                proof {
                    use_type_invariant(&*self);
                }
                Ok(())
            },
        }
    }
}

/// Registering a worker in its place keeps the pool ordered by priority with
/// distinct names, adds that worker and keeps every other one.
pub proof fn lemma_registration_keeps_order(
    s: Seq<(Seq<char>, u32)>,
    w: (Seq<char>, u32),
    t: Seq<(Seq<char>, u32)>,
)
    requires
        priority_sorted(s),
        names_distinct(s),
        !has_name(s, w.0),
        inserted_in_order(s, w, t),
    ensures
        priority_sorted(t),
        names_distinct(t),
        has_name(t, w.0),
        t.len() == s.len() + 1,
        forall|i: int| 0 <= i < s.len() ==> t.contains(#[trigger] s[i]),
{
    let k = choose|k: int|
        0 <= k <= s.len() && t == s.insert(k, w) && (forall|i: int| 0 <= i < k ==> s[i].1 < w.1)
            && (forall|i: int| k <= i < s.len() ==> w.1 < s[i].1);
    assert(t[k] == w);
    assert forall|i: int| 0 <= i < s.len() implies t.contains(#[trigger] s[i]) by {
        if i < k {
            assert(t[i] == s[i]);
        } else {
            assert(t[i + 1] == s[i]);
        }
    }
    assert forall|i: int, j: int| 0 <= i < j < t.len() implies t[i].1 < t[j].1 by {
        if j < k {
            assert(t[i] == s[i] && t[j] == s[j]);
        } else if j == k {
            assert(t[i] == s[i]);
        } else if i < k {
            assert(t[i] == s[i] && t[j] == s[j - 1]);
        } else if i == k {
            assert(t[j] == s[j - 1]);
        } else {
            assert(t[i] == s[i - 1] && t[j] == s[j - 1]);
        }
    }
    assert forall|i: int, j: int|
        0 <= i < t.len() && 0 <= j < t.len() && i != j implies t[i].0 != t[j].0 by {
        let i0 = if i < k { i } else { i - 1 };
        let j0 = if j < k { j } else { j - 1 };
        if i == k {
            assert(t[j] == s[j0]);
        } else if j == k {
            assert(t[i] == s[i0]);
        } else {
            assert(t[i] == s[i0] && t[j] == s[j0]);
        }
    }
}

/// Taking a worker out keeps the pool ordered with distinct names, and the
/// worker's name is gone.
pub proof fn lemma_removal_keeps_order(s: Seq<(Seq<char>, u32)>, i: int)
    requires
        priority_sorted(s),
        names_distinct(s),
        0 <= i < s.len(),
    ensures
        priority_sorted(s.remove(i)),
        names_distinct(s.remove(i)),
        !has_name(s.remove(i), s[i].0),
        s.remove(i).len() == s.len() - 1,
{
    let t = s.remove(i);
    assert forall|a: int, b: int| 0 <= a < b < t.len() implies t[a].1 < t[b].1 by {
        let a0 = if a < i { a } else { a + 1 };
        let b0 = if b < i { b } else { b + 1 };
        assert(t[a] == s[a0] && t[b] == s[b0]);
    }
    assert forall|a: int, b: int|
        0 <= a < t.len() && 0 <= b < t.len() && a != b implies t[a].0 != t[b].0 by {
        let a0 = if a < i { a } else { a + 1 };
        let b0 = if b < i { b } else { b + 1 };
        assert(t[a] == s[a0] && t[b] == s[b0]);
    }
    assert forall|a: int| 0 <= a < t.len() implies t[a].0 != s[i].0 by {
        let a0 = if a < i { a } else { a + 1 };
        assert(t[a] == s[a0]);
    }
}

/// What a worker did with a package.
#[derive(Debug)]
pub enum WorkerOutcome {
    /// Let it go on to the next pool.
    Release,
    /// Replaced it with new packages, each paired with whether it is safe to
    /// process again in this pool (it would not match the same worker).
    Modify(Vec<(Package, bool)>),
}

/// The packages of `outs` that are safe to process again, in order.
pub open spec fn safe_outputs(outs: Seq<(Package, bool)>) -> Seq<Package> {
    outs.filter(|o: (Package, bool)| o.1).map_values(|o: (Package, bool)| o.0)
}

/// The packages of `outs` that are not, in order.
pub open spec fn unsafe_outputs(outs: Seq<(Package, bool)>) -> Seq<Package> {
    outs.filter(|o: (Package, bool)| !o.1).map_values(|o: (Package, bool)| o.0)
}

/// Settle one package of a batch: with no worker accepting it (`outcome` is
/// `None`) or a worker releasing it, it goes on to the next pool; when a
/// worker replaces it, the replacements that are safe to process again join
/// the next round of this pool, and the others are dropped and returned, to
/// be reported as potential dead loops.
pub fn settle_package(
    package: Package,
    outcome: Option<WorkerOutcome>,
    next_pool: &mut Vec<Package>,
    next_round: &mut Vec<Package>,
) -> (dropped: Vec<Package>)
    ensures
        outcome matches Some(WorkerOutcome::Modify(outs)) ==> (final(next_pool)@ == old(next_pool)@
            && final(next_round)@ == old(next_round)@ + safe_outputs(outs@) && dropped@
            == unsafe_outputs(outs@)),
        !(outcome matches Some(WorkerOutcome::Modify(_))) ==> (final(next_pool)@ == old(
            next_pool,
        )@.push(package) && final(next_round)@ == old(next_round)@ && dropped@.len() == 0),
{
    match outcome {
        Some(WorkerOutcome::Modify(outs)) => {
            let ghost all = outs@;
            let ghost f = |o: (Package, bool)| o.1;
            let ghost g = |o: (Package, bool)| !o.1;
            let ghost base = next_round@;
            let mut dropped: Vec<Package> = Vec::new();
            let mut rest = outs;
            let ghost mut taken: Seq<(Package, bool)> = Seq::empty();
            while rest.len() > 0
                invariant
                    f == (|o: (Package, bool)| o.1),
                    g == (|o: (Package, bool)| !o.1),
                    taken + rest@ == all,
                    next_round@ == base + safe_outputs(taken),
                    dropped@ == unsafe_outputs(taken),
                decreases rest@.len(),
            {
                let ghost r0 = rest@;
                let o = rest.remove(0);
                let ghost og = o;
                let ghost t0 = taken;
                proof {
                    assert(r0 == seq![og] + rest@);
                    assert(t0.push(og) + rest@ =~= t0 + r0);
                    t0.lemma_filter_push(og, f);
                    t0.lemma_filter_push(og, g);
                }
                let (p, safe) = o;
                if safe {
                    next_round.push(p);
                } else {
                    dropped.push(p);
                }
                proof {
                    taken = taken.push(og);
                }
                proof {
                    assert(t0.push(og).filter(f).map_values(|x: (Package, bool)| x.0) =~= (if og.1 {
                        t0.filter(f).push(og)
                    } else {
                        t0.filter(f)
                    }).map_values(|x: (Package, bool)| x.0));
                    assert(t0.push(og).filter(g).map_values(|x: (Package, bool)| x.0) =~= (if !og.1 {
                        t0.filter(g).push(og)
                    } else {
                        t0.filter(g)
                    }).map_values(|x: (Package, bool)| x.0));
                }
            }
            proof {
                assert(taken =~= all);
            }
            dropped
        },
        _ => {
            next_pool.push(package);
            Vec::new()
        },
    }
}

/// A batch going through a pool, one package at a time: the packages left
/// in this round, in order, the replacements gathered for the next round,
/// and the packages that go on to the next pool. The caller asks which
/// package comes next, lets the workers handle it (with `dispatch` choosing
/// the worker), and hands back what the worker did; it reports the dropped
/// replacements as potential dead loops.
#[derive(Debug)]
pub struct BatchRun {
    round: Vec<Package>,
    next_round: Vec<Package>,
    next_pool: Vec<Package>,
}

impl BatchRun {
    /// The packages left in this round, in order.
    pub closed spec fn spec_round(&self) -> Seq<Package> {
        self.round@
    }

    /// The replacements gathered for the next round, in order.
    pub closed spec fn spec_next_round(&self) -> Seq<Package> {
        self.next_round@
    }

    /// The packages that go on to the next pool, in order.
    pub closed spec fn spec_next_pool(&self) -> Seq<Package> {
        self.next_pool@
    }

    /// How many packages the run holds: left, gathered and passed on.
    pub open spec fn spec_held(&self) -> nat {
        self.spec_round().len() + self.spec_next_round().len() + self.spec_next_pool().len()
    }

    /// The run of `packages`: all of them in the first round.
    pub fn new(packages: Vec<Package>) -> (r: Self)
        ensures
            r.spec_round() == packages@,
            r.spec_next_round().len() == 0,
            r.spec_next_pool().len() == 0,
    {
        BatchRun { round: packages, next_round: Vec::new(), next_pool: Vec::new() }
    }

    /// Whether the batch is through: no package is left in this round or
    /// gathered for the next one.
    pub fn is_finished(&self) -> (r: bool)
        ensures
            r == (self.spec_round().len() == 0 && self.spec_next_round().len() == 0),
    {
        self.round.len() == 0 && self.next_round.len() == 0
    }

    /// The package to hand to the workers next: the first of this round, or,
    /// when this round is through, the first of the next, which then begins.
    pub fn next_package(&mut self) -> (r: Option<&Package>)
        ensures
            old(self).spec_round().len() > 0 ==> final(self).spec_round() == old(self).spec_round()
                && final(self).spec_next_round() == old(self).spec_next_round(),
            old(self).spec_round().len() == 0 ==> final(self).spec_round() == old(
                self,
            ).spec_next_round() && final(self).spec_next_round().len() == 0,
            final(self).spec_next_pool() == old(self).spec_next_pool(),
            r is None <==> final(self).spec_round().len() == 0,
            r matches Some(p) ==> *p == final(self).spec_round()[0],
    {
        if self.round.len() == 0 {
            let mut next: Vec<Package> = Vec::new();
            std::mem::swap(&mut next, &mut self.next_round);
            self.round = next;
        }
        if self.round.len() == 0 {
            None
        } else {
            Some(&self.round[0])
        }
    }

    /// Settle the first package of this round with what the workers did:
    /// `None` when no worker took it. It leaves the round; released or
    /// untaken it goes on to the next pool, replaced its safe replacements
    /// join the next round, and the unsafe ones are returned. No package is
    /// lost: the package and its replacements are all held or returned.
    pub fn settle(&mut self, outcome: Option<WorkerOutcome>) -> (dropped: Vec<Package>)
        requires
            old(self).spec_round().len() > 0,
        ensures
            final(self).spec_round() == old(self).spec_round().drop_first(),
            outcome matches Some(WorkerOutcome::Modify(outs)) ==> (final(self).spec_next_pool()
                == old(self).spec_next_pool() && final(self).spec_next_round() == old(
                self,
            ).spec_next_round() + safe_outputs(outs@) && dropped@ == unsafe_outputs(outs@)),
            !(outcome matches Some(WorkerOutcome::Modify(_))) ==> (final(self).spec_next_pool()
                == old(self).spec_next_pool().push(old(self).spec_round()[0])
                && final(self).spec_next_round() == old(self).spec_next_round() && dropped@.len()
                == 0),
            final(self).spec_held() + dropped@.len() + 1 == old(self).spec_held() + match outcome {
                Some(WorkerOutcome::Modify(outs)) => outs@.len(),
                _ => 1,
            },
    {
        let ghost r0 = self.round@;
        let ghost o = outcome;
        let package = self.round.remove(0);
        assert(self.round@ =~= r0.drop_first());
        let dropped = settle_package(package, outcome, &mut self.next_pool, &mut self.next_round);
        proof {
            if let Some(WorkerOutcome::Modify(outs)) = o {
                lemma_replacements_accounted(outs@);
            }
        }
        dropped
    }

    /// The packages that went on to the next pool, in order.
    pub fn into_next_pool(self) -> (r: Vec<Package>)
        ensures
            r@ == self.spec_next_pool(),
    {
        self.next_pool
    }
}

/// No replacement is lost: each one either joins the next round or is
/// dropped and reported.
pub proof fn lemma_replacements_accounted(outs: Seq<(Package, bool)>)
    ensures
        safe_outputs(outs).len() + unsafe_outputs(outs).len() == outs.len(),
    decreases outs.len(),
{
    if outs.len() > 0 {
        let init = outs.drop_last();
        let last = outs.last();
        lemma_replacements_accounted(init);
        assert(init.push(last) =~= outs);
        init.lemma_filter_push(last, |o: (Package, bool)| o.1);
        init.lemma_filter_push(last, |o: (Package, bool)| !o.1);
    }
}

} // verus!
