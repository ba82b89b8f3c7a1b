//! Provisioning strategy service logic.
//!
//! Parsing the strategy description language is an external collaborator's
//! work; it hands this module plain strategy definitions. Verified here are
//! the keyed loading rules (a later definition with the same name replaces
//! an earlier one, as repeated map insertion does), the listing, and the
//! authorization gate on each call.

use vstd::prelude::*;
use crate::auth::{authorized, AuthService, Request, Status};

verus! {

/// A named, declarative description of how to partition and format disks.
pub struct StrategyDefinition {
    /// Unique strategy name.
    pub name: String,
    /// One-line summary of what the strategy does.
    pub summary: String,
    /// Names of strategies this one inherits from.
    pub inherits: Vec<String>,
}

/// Mathematical image of a [`StrategyDefinition`].
#[verifier::ext_equal]
pub ghost struct StrategyView {
    /// Unique strategy name.
    pub name: String,
    /// One-line summary.
    pub summary: String,
    /// Names of inherited strategies.
    pub inherits: Seq<String>,
}

impl View for StrategyDefinition {
    type V = StrategyView;

    open spec fn view(&self) -> StrategyView {
        StrategyView { name: self.name, summary: self.summary, inherits: self.inherits@ }
    }
}

/// The views of a sequence of strategy definitions.
pub open spec fn strategy_views(s: Seq<StrategyDefinition>) -> Seq<StrategyView> {
    s.map_values(|d: StrategyDefinition| d@)
}

/// The names of a sequence of strategy views, in order.
pub open spec fn strategy_names(s: Seq<StrategyView>) -> Seq<Seq<char>> {
    s.map_values(|v: StrategyView| v.name@)
}

/// One definition inserted into a table keyed by name: a present name is
/// replaced in place, a new name is appended.
pub open spec fn upsert(acc: Seq<StrategyView>, d: StrategyView) -> Seq<StrategyView> {
    match strategy_names(acc).index_of_first(d.name@) {
        Some(i) => acc.update(i, d),
        None => acc.push(d),
    }
}

/// All definitions inserted in order into an initially empty table.
pub open spec fn upsert_all(defs: Seq<StrategyView>) -> Seq<StrategyView>
    decreases defs.len(),
{
    if defs.len() == 0 {
        Seq::empty()
    } else {
        upsert(upsert_all(defs.drop_last()), defs.last())
    }
}

/// One strategy as listed to callers.
pub struct StrategyDescriptor {
    /// The key the strategy is stored under.
    pub id: String,
    /// The strategy's name.
    pub name: String,
    /// The strategy's summary.
    pub description: String,
    /// Names of inherited strategies.
    pub inherits: Vec<String>,
}

/// Mathematical image of a [`StrategyDescriptor`].
#[verifier::ext_equal]
pub ghost struct DescriptorView {
    /// The key the strategy is stored under.
    pub id: String,
    /// The strategy's name.
    pub name: String,
    /// The strategy's summary.
    pub description: String,
    /// Names of inherited strategies.
    pub inherits: Seq<String>,
}

impl View for StrategyDescriptor {
    type V = DescriptorView;

    open spec fn view(&self) -> DescriptorView {
        DescriptorView {
            id: self.id,
            name: self.name,
            description: self.description,
            inherits: self.inherits@,
        }
    }
}

/// The views of a sequence of descriptors.
pub open spec fn descriptor_views(s: Seq<StrategyDescriptor>) -> Seq<DescriptorView> {
    s.map_values(|d: StrategyDescriptor| d@)
}

/// The descriptor a loaded strategy is listed as: keyed by its name, with
/// the summary as description.
pub open spec fn descriptor_of(v: StrategyView) -> DescriptorView {
    DescriptorView { id: v.name, name: v.name, description: v.summary, inherits: v.inherits }
}

/// Response payload: every loaded strategy.
pub struct ListStrategiesResponse {
    /// Descriptors of the loaded strategies, in table order.
    pub strategies: Vec<StrategyDescriptor>,
}

/// Request payload for a strategy dry run.
pub struct TryStrategyRequest {
    /// The strategy to try.
    pub strategy: String,
    /// Device paths of the disks to try it on.
    pub disks: Vec<String>,
}

/// Response payload of a strategy dry run.
pub struct TryStrategyResponse {}

impl StrategyDefinition {
    /// A copy whose mathematical image is unchanged.
    pub fn clone_definition(&self) -> (r: StrategyDefinition)
        ensures
            r@ == self@,
    {
        let mut inherits: Vec<String> = Vec::new();
        let mut i: usize = 0;
        while i < self.inherits.len()
            invariant
                i <= self.inherits.len(),
                inherits@ =~= self.inherits@.subrange(0, i as int),
            decreases self.inherits.len() - i,
        {
            inherits.push(self.inherits[i].clone());
            i = i + 1;
        }
        proof {
            assert(inherits@ =~= self.inherits@);
        }
        let r = StrategyDefinition {
            name: self.name.clone(),
            summary: self.summary.clone(),
            inherits,
        };
        proof {
            assert(r@ =~= self@);
        }
        r
    }
}

/// The provisioner service: holds the authorization seam and the strategy
/// table, keyed by name.
pub struct ProvisionerService {
    auth: AuthService,
    strategies: Vec<StrategyDefinition>,
}

/// Creates the provisioner service from parsed strategy definitions,
/// inserted in order: a later definition with an already-present name
/// replaces the earlier one in place.
#[verifier::loop_isolation(false)]
pub fn service(auth: AuthService, defs: Vec<StrategyDefinition>) -> (s: ProvisionerService)
    ensures
        s.spec_strategies() == upsert_all(strategy_views(defs@)),
{
    let mut strategies: Vec<StrategyDefinition> = Vec::new();
    let mut i: usize = 0;
    while i < defs.len()
        invariant
            i <= defs.len(),
            strategy_views(strategies@) == upsert_all(strategy_views(defs@.subrange(0, i as int))),
        decreases defs.len() - i,
    {
        proof {
            let ext = strategy_views(defs@.subrange(0, i + 1 as int));
            assert(ext.drop_last() =~= strategy_views(defs@.subrange(0, i as int)));
            assert(ext.last() == defs@[i as int]@);
        }
        let d = defs[i].clone_definition();
        let ghost table = strategy_views(strategies@);
        let mut found: Option<usize> = None;
        let mut k: usize = 0;
        while k < strategies.len()
            invariant
                k <= strategies.len(),
                found is None ==> forall|m: int|
                    0 <= m < k ==> strategy_names(strategy_views(strategies@))[m] != d.name@,
                found matches Some(f) ==> strategy_names(table).index_of_first(d.name@) == Some(
                    f as int,
                ) && f < strategies.len(),
                table == strategy_views(strategies@),
            decreases strategies.len() - k,
        {
            if found.is_none() && strategies[k].name == d.name {
                proof {
                    let names = strategy_names(table);
                    assert(names[k as int] == d.name@);
                    assert(names.contains(d.name@));
                    names.index_of_first_ensures(d.name@);
                    let fi = names.index_of_first(d.name@)->0;
                    if fi < k as int {
                        assert(names[fi] == d.name@);
                    }
                    assert(fi == k as int);
                }
                found = Some(k);
            }
            k = k + 1;
        }
        match found {
            Some(f) => {
                strategies[f] = d;
                proof {
                    assert(strategy_views(strategies@) =~= table.update(f as int, defs@[i as int]@));
                    assert(strategy_views(strategies@) =~= upsert(
                        table,
                        defs@[i as int]@,
                    ));
                }
            }
            None => {
                proof {
                    let names = strategy_names(table);
                    if names.contains(d.name@) {
                        let w = choose|w: int| 0 <= w < names.len() && names[w] == d.name@;
                        assert(names[w] != d.name@);
                    }
                    names.index_of_first_ensures(d.name@);
                }
                strategies.push(d);
                proof {
                    assert(strategy_views(strategies@) =~= table.push(defs@[i as int]@));
                    assert(strategy_views(strategies@) =~= upsert(
                        table,
                        defs@[i as int]@,
                    ));
                }
            }
        }
        i = i + 1;
    }
    proof {
        assert(defs@.subrange(0, defs@.len() as int) =~= defs@);
    }
    ProvisionerService { auth, strategies }
}

impl ProvisionerService {
    /// The strategy table, in insertion order.
    pub closed spec fn spec_strategies(&self) -> Seq<StrategyView> {
        strategy_views(self.strategies@)
    }

    /// Lists every loaded strategy as a descriptor keyed by its name. With
    /// nothing loaded the answer is an empty list, not an error. The
    /// authorization guard runs before any domain work.
    pub fn list_strategies(&self, request: Request<()>) -> (r: Result<
        ListStrategiesResponse,
        Status,
    >)
        ensures
            request.spec_auth() is None ==> (r matches Err(s) && s is Unauthenticated),
            request.spec_auth() is Some ==> (r matches Ok(resp) && descriptor_views(
                resp.strategies@,
            ) == self.spec_strategies().map_values(|v: StrategyView| descriptor_of(v))),
            request.spec_auth() is Some && self.spec_strategies().len() == 0 ==> (r matches Ok(
                resp,
            ) && resp.strategies@.len() == 0),
    {
        let request = match authorized(
            &self.auth,
            request,
            "com.aerynos.lichen.provisioner.list",
            "Not authorized for action: com.aerynos.lichen.provisioner.list",
        ) {
            Ok(granted) => granted,
            Err(denied) => {
                return Err(denied);
            }
        };
        let mut strategies: Vec<StrategyDescriptor> = Vec::new();
        let mut i: usize = 0;
        while i < self.strategies.len()
            invariant
                i <= self.strategies.len(),
                strategies@.len() == i as int,
                descriptor_views(strategies@) == self.spec_strategies().map_values(
                    |v: StrategyView| descriptor_of(v),
                ).subrange(0, i as int),
            decreases self.strategies.len() - i,
        {
            let d = self.strategies[i].clone_definition();
            let mut inherits_copy: Vec<String> = Vec::new();
            let mut k: usize = 0;
            while k < d.inherits.len()
                invariant
                    k <= d.inherits.len(),
                    inherits_copy@ =~= d.inherits@.subrange(0, k as int),
                decreases d.inherits.len() - k,
            {
                inherits_copy.push(d.inherits[k].clone());
                k = k + 1;
            }
            proof {
                assert(inherits_copy@ =~= d.inherits@);
            }
            strategies.push(
                StrategyDescriptor {
                    id: d.name.clone(),
                    name: d.name,
                    description: d.summary,
                    inherits: inherits_copy,
                },
            );
            proof {
                assert(strategies@[i as int]@ =~= descriptor_of(self.spec_strategies()[i as int]));
                assert(descriptor_views(strategies@) =~= self.spec_strategies().map_values(
                    |v: StrategyView| descriptor_of(v),
                ).subrange(0, i + 1 as int));
            }
            i = i + 1;
        }
        proof {
            let full = self.spec_strategies().map_values(|v: StrategyView| descriptor_of(v));
            assert(full.subrange(0, full.len() as int) =~= full);
        }
        Ok(ListStrategiesResponse { strategies })
    }

    /// Answers a strategy dry run. Computing an actual plan is the
    /// provisioning engine's work and not wired up; the call acknowledges
    /// with an empty response for every authorized request. The
    /// authorization guard runs before any domain work.
    pub fn try_strategy(&self, request: Request<TryStrategyRequest>) -> (r: Result<
        TryStrategyResponse,
        Status,
    >)
        ensures
            request.spec_auth() is None ==> (r matches Err(s) && s is Unauthenticated),
            request.spec_auth() is Some ==> r is Ok,
    {
        let request = match authorized(
            &self.auth,
            request,
            "com.aerynos.lichen.provisioner.try",
            "Not authorized for action: com.aerynos.lichen.provisioner.try",
        ) {
            Ok(granted) => granted,
            Err(denied) => {
                return Err(denied);
            }
        };
        let _ = request.into_inner();
        Ok(TryStrategyResponse {  })
    }
}

} // verus!
