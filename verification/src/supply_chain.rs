//! Supply-chain tracking: products move through checkpoints recorded by
//! handlers, inspectors file quality reports, the admin recalls products,
//! and cold-chain agreements penalise temperature violations.
use vstd::prelude::*;
use std::collections::HashMap;
use crate::common::{Address, Text, fits_i128, first_match, is_first_match, lemma_first_match_is,
    lemma_first_match_none};

verus! {

broadcast use vstd::std_specs::hash::group_hash_axioms;

#[derive(Clone, Copy, Debug, PartialEq, Eq, Structural)]
pub enum Error {
    AlreadyInitialized,
    NotInitialized,
    Unauthorized,
    EmptyName,
    NotHandler,
    NotInspector,
    ProductNotFound,
    AlreadyRecalled,
    ReportNotFound,
    InvalidTemperatureRange,
    SlaNotFound,
    PenaltyNotFound,
}

#[derive(Clone, Copy, Debug, PartialEq, Eq, Structural)]
pub enum ProductStatus {
    Registered,
    InTransit,
    AtWarehouse,
    QualityCheck,
    Approved,
    Rejected,
    Delivered,
    Recalled,
    TemperatureViolation,
}

#[derive(Clone, Copy, Debug, PartialEq, Eq, Structural)]
pub enum QualityResult {
    Pass,
    Fail,
    Pending,
}

#[derive(Clone, Copy, Debug, PartialEq, Eq, Structural)]
pub enum SlaStatus {
    Active,
    Expired,
}

#[derive(Clone, Copy, Debug, PartialEq, Eq, Structural)]
pub enum TemperatureLogStatus {
    Normal,
    Warning,
    Violation,
}

#[derive(Clone, Debug)]
pub struct Product {
    pub id: u32,
    pub owner: Address,
    pub name: Text,
    pub metadata_hash: u64,
    pub status: ProductStatus,
    pub created_at: u64,
    pub updated_at: u64,
}

#[derive(Clone, Copy, Debug, PartialEq, Eq, Structural)]
pub struct Checkpoint {
    pub product_id: u32,
    pub index: u32,
    pub handler: Address,
    pub location_hash: u64,
    pub notes_hash: u64,
    pub timestamp: u64,
}

#[derive(Clone, Copy, Debug, PartialEq, Eq, Structural)]
pub struct QualityReport {
    pub product_id: u32,
    pub inspector: Address,
    pub result: QualityResult,
    pub report_hash: u64,
    pub timestamp: u64,
}

#[derive(Clone, Copy, Debug, PartialEq, Eq, Structural)]
pub struct ColdChainSla {
    pub id: u32,
    pub product_id: u32,
    pub min_temp_celsius: i32,
    pub max_temp_celsius: i32,
    pub max_violation_minutes: u32,
    pub penalty_per_violation: i128,
    pub deposit_amount: i128,
    pub status: SlaStatus,
    pub created_at: u64,
    pub expires_at: u64,
    pub violation_count: u32,
    pub total_penalties: i128,
}

#[derive(Clone, Copy, Debug, PartialEq, Eq, Structural)]
pub struct TemperatureLog {
    pub product_id: u32,
    pub timestamp: u64,
    pub temperature_celsius: i32,
    pub humidity_percent: u32,
    pub status: TemperatureLogStatus,
    pub recorded_by: Address,
    pub proof_hash: u64,
}

#[derive(Clone, Copy, Debug, PartialEq, Eq, Structural)]
pub struct PenaltyRecord {
    pub id: u32,
    pub sla_id: u32,
    pub product_id: u32,
    pub violation_timestamp: u64,
    pub duration_minutes: u32,
    pub penalty_amount: i128,
    pub recorded_by: Address,
}

/// The tracking contract's storage.  SLA `i` is `slas[i - 1]` and penalty
/// `i` is `penalties[i - 1]`; checkpoint `n` of product `p` is stored
/// under `checkpoint_key(p, n)` and a temperature log under
/// `log_key(p, timestamp)`.
pub struct SupplyChain {
    pub admin: Option<Address>,
    pub product_count: u32,
    pub products: HashMap<u32, Product>,
    pub inspectors: HashMap<Address, bool>,
    pub handlers: HashMap<Address, bool>,
    pub checkpoints: HashMap<u64, Checkpoint>,
    pub checkpoint_counts: HashMap<u32, u32>,
    pub quality_reports: HashMap<u32, QualityReport>,
    pub slas: Vec<ColdChainSla>,
    pub penalties: Vec<PenaltyRecord>,
    pub temperature_logs: HashMap<u128, TemperatureLog>,
}

pub open spec fn checkpoint_key(product_id: u32, index: u32) -> u64 {
    (product_id as int * 0x1_0000_0000 + index as int) as u64
}

fn checkpoint_key_of(product_id: u32, index: u32) -> (k: u64)
    ensures
        k == checkpoint_key(product_id, index),
{
    product_id as u64 * 0x1_0000_0000 + index as u64
}

pub open spec fn log_key(product_id: u32, timestamp: u64) -> u128 {
    (product_id as int * 0x1_0000_0000_0000_0000 + timestamp as int) as u128
}

/// An SLA governs a product at `now`: it is for that product, active and
/// not yet expired.
pub open spec fn governs(product_id: u32, now: u64) -> spec_fn(ColdChainSla) -> bool {
    |s: ColdChainSla| s.product_id == product_id && s.status == SlaStatus::Active && now <= s.expires_at
}

/// How a temperature compares with an SLA's range: outside is a
/// violation; within the warning buffer of either edge (5 degrees for a
/// range of 15 or more, else a sixth of the range) a warning.
pub open spec fn classify(s: ColdChainSla, t: i32) -> TemperatureLogStatus {
    let range = s.max_temp_celsius - s.min_temp_celsius;
    let buffer = if range >= 15 {
        5
    } else {
        range / 6
    };
    if t < s.min_temp_celsius || t > s.max_temp_celsius {
        TemperatureLogStatus::Violation
    } else if buffer > 0 && (t < s.min_temp_celsius + buffer || t > s.max_temp_celsius - buffer) {
        TemperatureLogStatus::Warning
    } else {
        TemperatureLogStatus::Normal
    }
}

/// The SLAs with every earlier lapsed agreement of the product (active but
/// expired) before position `j` marked expired.
pub open spec fn lapse_before(slas: Seq<ColdChainSla>, product_id: u32, now: u64, j: int) -> Seq<ColdChainSla> {
    Seq::new(
        slas.len(),
        |k: int|
            if k < j && slas[k].product_id == product_id && slas[k].status == SlaStatus::Active && now
                > slas[k].expires_at {
                ColdChainSla { status: SlaStatus::Expired, ..slas[k] }
            } else {
                slas[k]
            },
    )
}

impl SupplyChain {
    pub open spec fn spec_role(m: Map<Address, bool>, a: Address) -> bool {
        m.contains_key(a) && m[a]
    }

    pub open spec fn spec_checkpoint_count(&self, product_id: u32) -> u32 {
        if self.checkpoint_counts@.contains_key(product_id) {
            self.checkpoint_counts@[product_id]
        } else {
            0
        }
    }

    /// The status of a temperature reading of a product at `now`, judged by
    /// the first SLA that governs it (normal when none does).
    pub open spec fn temperature_status(&self, product_id: u32, now: u64, t: i32) -> TemperatureLogStatus {
        match first_match(self.slas@, governs(product_id, now)) {
            Some(j) => classify(self.slas@[j], t),
            None => TemperatureLogStatus::Normal,
        }
    }

    pub fn new() -> (s: Self)
        ensures
            s.admin is None,
            s.product_count == 0,
            s.products@ == Map::<u32, Product>::empty(),
            s.slas@.len() == 0,
            s.penalties@.len() == 0,
    {
        SupplyChain {
            admin: None,
            product_count: 0,
            products: HashMap::new(),
            inspectors: HashMap::new(),
            handlers: HashMap::new(),
            checkpoints: HashMap::new(),
            checkpoint_counts: HashMap::new(),
            quality_reports: HashMap::new(),
            slas: Vec::new(),
            penalties: Vec::new(),
            temperature_logs: HashMap::new(),
        }
    }

    pub fn initialize(&mut self, admin: Address) -> (r: Result<(), Error>)
        ensures
            old(self).admin is Some ==> r == Err::<(), Error>(Error::AlreadyInitialized) && *final(self) == *old(self),
            old(self).admin is None ==> r is Ok && *final(self) == (SupplyChain { admin: Some(admin), ..*old(self) }),
    {
        if self.admin.is_some() {
            return Err(Error::AlreadyInitialized);
        }
        self.admin = Some(admin);
        Ok(())
    }

    /// Why an admin-only call by `caller` fails, if it does.
    pub open spec fn admin_error(&self, caller: Address) -> Option<Error> {
        match self.admin {
            None => Some(Error::NotInitialized),
            Some(a) => if a != caller {
                Some(Error::Unauthorized)
            } else {
                None
            },
        }
    }

    fn check_admin(&self, caller: Address) -> (r: Result<(), Error>)
        ensures
            match self.admin_error(caller) {
                Some(e) => r == Err::<(), Error>(e),
                None => r is Ok,
            },
    {
        match self.admin {
            None => Err(Error::NotInitialized),
            Some(a) => if a != caller {
                Err(Error::Unauthorized)
            } else {
                Ok(())
            },
        }
    }

    /// The admin grants or withdraws the inspector role (`is_inspector`) or
    /// the handler role.
    pub fn set_role(&mut self, caller: Address, who: Address, is_inspector: bool, granted: bool) -> (r: Result<
        (),
        Error,
    >)
        ensures
            match old(self).admin_error(caller) {
                Some(e) => r == Err::<(), Error>(e) && *final(self) == *old(self),
                None => r is Ok && (is_inspector ==> *final(self) == (SupplyChain {
                    inspectors: final(self).inspectors,
                    ..*old(self)
                }) && final(self).inspectors@ == old(self).inspectors@.insert(who, granted)) && (!is_inspector
                    ==> *final(self) == (SupplyChain { handlers: final(self).handlers, ..*old(self) })
                    && final(self).handlers@ == old(self).handlers@.insert(who, granted)),
            },
    {
        self.check_admin(caller)?;
        if is_inspector {
            self.inspectors.insert(who, granted);
        } else {
            self.handlers.insert(who, granted);
        }
        Ok(())
    }

    pub fn add_inspector(&mut self, caller: Address, inspector: Address) -> (r: Result<(), Error>)
        ensures
            match old(self).admin_error(caller) {
                Some(e) => r == Err::<(), Error>(e) && *final(self) == *old(self),
                None => r is Ok && *final(self) == (SupplyChain { inspectors: final(self).inspectors, ..*old(self) })
                    && final(self).inspectors@ == old(self).inspectors@.insert(inspector, true),
            },
    {
        self.set_role(caller, inspector, true, true)
    }

    pub fn remove_inspector(&mut self, caller: Address, inspector: Address) -> (r: Result<(), Error>)
        ensures
            match old(self).admin_error(caller) {
                Some(e) => r == Err::<(), Error>(e) && *final(self) == *old(self),
                None => r is Ok && *final(self) == (SupplyChain { inspectors: final(self).inspectors, ..*old(self) })
                    && final(self).inspectors@ == old(self).inspectors@.insert(inspector, false),
            },
    {
        self.set_role(caller, inspector, true, false)
    }

    pub fn add_handler(&mut self, caller: Address, handler: Address) -> (r: Result<(), Error>)
        ensures
            match old(self).admin_error(caller) {
                Some(e) => r == Err::<(), Error>(e) && *final(self) == *old(self),
                None => r is Ok && *final(self) == (SupplyChain { handlers: final(self).handlers, ..*old(self) })
                    && final(self).handlers@ == old(self).handlers@.insert(handler, true),
            },
    {
        self.set_role(caller, handler, false, true)
    }

    pub fn remove_handler(&mut self, caller: Address, handler: Address) -> (r: Result<(), Error>)
        ensures
            match old(self).admin_error(caller) {
                Some(e) => r == Err::<(), Error>(e) && *final(self) == *old(self),
                None => r is Ok && *final(self) == (SupplyChain { handlers: final(self).handlers, ..*old(self) })
                    && final(self).handlers@ == old(self).handlers@.insert(handler, false),
            },
    {
        self.set_role(caller, handler, false, false)
    }

    fn has_role(m: &HashMap<Address, bool>, a: Address) -> (b: bool)
        ensures
            b == Self::spec_role(m@, a),
    {
        match m.get(&a) {
            Some(v) => *v,
            None => false,
        }
    }

    /// An owner registers a product with a non-empty name.  Returns its id.
    pub fn register_product(&mut self, now: u64, owner: Address, name: Text, metadata_hash: u64) -> (r: Result<
        u32,
        Error,
    >)
        requires
            name@.len() > 0 ==> old(self).product_count < u32::MAX,
        ensures
            name@.len() == 0 ==> r == Err::<u32, Error>(Error::EmptyName) && *final(self) == *old(self),
            name@.len() > 0 ==> {
                let id = (old(self).product_count + 1) as u32;
                &&& r == Ok::<u32, Error>(id)
                &&& final(self).products@ == old(self).products@.insert(
                    id,
                    Product {
                        id,
                        owner,
                        name,
                        metadata_hash,
                        status: ProductStatus::Registered,
                        created_at: now,
                        updated_at: now,
                    },
                )
                &&& *final(self) == (SupplyChain {
                    products: final(self).products,
                    product_count: id,
                    ..*old(self)
                })
            },
    {
        if name.len() == 0 {
            return Err(Error::EmptyName);
        }
        let id = self.product_count + 1;
        self.products.insert(
            id,
            Product {
                id,
                owner,
                name,
                metadata_hash,
                status: ProductStatus::Registered,
                created_at: now,
                updated_at: now,
            },
        );
        self.product_count = id;
        Ok(id)
    }

    /// Only the product's status and update time changed.
    pub open spec fn product_moved(before: &Self, after: &Self, id: u32, status: ProductStatus, now: u64) -> bool {
        let o = before.products@[id];
        let n = after.products@[id];
        &&& after.products@ == before.products@.insert(id, n)
        &&& n.status == status && n.updated_at == now
        &&& n.id == o.id && n.owner == o.owner && n.name == o.name && n.metadata_hash == o.metadata_hash
        &&& n.created_at == o.created_at
    }

    fn set_product_status(&mut self, id: u32, status: ProductStatus, now: u64)
        requires
            old(self).products@.contains_key(id),
        ensures
            Self::product_moved(old(self), final(self), id, status, now),
            *final(self) == (SupplyChain { products: final(self).products, ..*old(self) }),
    {
        let p = self.products.remove(&id).unwrap();
        self.products.insert(
            id,
            Product {
                id: p.id,
                owner: p.owner,
                name: p.name,
                metadata_hash: p.metadata_hash,
                status,
                created_at: p.created_at,
                updated_at: now,
            },
        );
        proof {
            assert(self.products@ =~= old(self).products@.insert(id, self.products@[id]));
        }
    }

    /// Why `add_checkpoint` fails, if it does.
    pub open spec fn checkpoint_error(&self, handler: Address, product_id: u32) -> Option<Error> {
        if !Self::spec_role(self.handlers@, handler) {
            Some(Error::NotHandler)
        } else if !self.products@.contains_key(product_id) {
            Some(Error::ProductNotFound)
        } else if self.products@[product_id].status == ProductStatus::Recalled {
            Some(Error::AlreadyRecalled)
        } else {
            None
        }
    }

    /// A handler records the next checkpoint of a product, which is then in
    /// transit.  Returns the checkpoint's index.
    pub fn add_checkpoint(&mut self, now: u64, handler: Address, product_id: u32, location_hash: u64, notes_hash: u64) -> (r:
        Result<u32, Error>)
        requires
            old(self).checkpoint_error(handler, product_id) is None ==> old(self).spec_checkpoint_count(product_id)
                < u32::MAX,
        ensures
            match old(self).checkpoint_error(handler, product_id) {
                Some(e) => r == Err::<u32, Error>(e) && *final(self) == *old(self),
                None => {
                    let index = (old(self).spec_checkpoint_count(product_id) + 1) as u32;
                    &&& r == Ok::<u32, Error>(index)
                    &&& final(self).checkpoints@ == old(self).checkpoints@.insert(
                        checkpoint_key(product_id, index),
                        Checkpoint { product_id, index, handler, location_hash, notes_hash, timestamp: now },
                    )
                    &&& final(self).checkpoint_counts@ == old(self).checkpoint_counts@.insert(product_id, index)
                    &&& Self::product_moved(old(self), final(self), product_id, ProductStatus::InTransit, now)
                    &&& *final(self) == (SupplyChain {
                        products: final(self).products,
                        checkpoints: final(self).checkpoints,
                        checkpoint_counts: final(self).checkpoint_counts,
                        ..*old(self)
                    })
                },
            },
    {
        if !Self::has_role(&self.handlers, handler) {
            return Err(Error::NotHandler);
        }
        match self.products.get(&product_id) {
            None => return Err(Error::ProductNotFound),
            Some(p) => {
                if p.status == ProductStatus::Recalled {
                    return Err(Error::AlreadyRecalled);
                }
            },
        }
        let count = match self.checkpoint_counts.get(&product_id) {
            Some(c) => *c,
            None => 0,
        };
        let index = count + 1;
        let k = checkpoint_key_of(product_id, index);
        self.checkpoints.insert(k, Checkpoint { product_id, index, handler, location_hash, notes_hash, timestamp: now });
        self.checkpoint_counts.insert(product_id, index);
        self.set_product_status(product_id, ProductStatus::InTransit, now);
        Ok(index)
    }

    /// Why `update_status` fails, if it does.
    pub open spec fn status_error(&self, caller: Address, product_id: u32) -> Option<Error> {
        if self.admin is None {
            Some(Error::NotInitialized)
        } else if self.admin != Some(caller) && !Self::spec_role(self.handlers@, caller) {
            Some(Error::Unauthorized)
        } else if !self.products@.contains_key(product_id) {
            Some(Error::ProductNotFound)
        } else if self.products@[product_id].status == ProductStatus::Recalled {
            Some(Error::AlreadyRecalled)
        } else {
            None
        }
    }

    /// The admin or a handler sets the status of a product not recalled.
    pub fn update_status(&mut self, now: u64, caller: Address, product_id: u32, new_status: ProductStatus) -> (r:
        Result<(), Error>)
        ensures
            match old(self).status_error(caller, product_id) {
                Some(e) => r == Err::<(), Error>(e) && *final(self) == *old(self),
                None => r is Ok && Self::product_moved(old(self), final(self), product_id, new_status, now) && *final(
                    self) == (SupplyChain { products: final(self).products, ..*old(self) }),
            },
    {
        let admin = match self.admin {
            None => return Err(Error::NotInitialized),
            Some(a) => a,
        };
        if caller != admin && !Self::has_role(&self.handlers, caller) {
            return Err(Error::Unauthorized);
        }
        match self.products.get(&product_id) {
            None => return Err(Error::ProductNotFound),
            Some(p) => {
                if p.status == ProductStatus::Recalled {
                    return Err(Error::AlreadyRecalled);
                }
            },
        }
        self.set_product_status(product_id, new_status, now);
        Ok(())
    }

    /// The product status a quality result leads to.
    pub open spec fn status_for(result: QualityResult) -> ProductStatus {
        match result {
            QualityResult::Pass => ProductStatus::Approved,
            QualityResult::Fail => ProductStatus::Rejected,
            QualityResult::Pending => ProductStatus::QualityCheck,
        }
    }

    /// Why `submit_quality_report` fails, if it does.
    pub open spec fn report_error(&self, inspector: Address, product_id: u32) -> Option<Error> {
        if !Self::spec_role(self.inspectors@, inspector) {
            Some(Error::NotInspector)
        } else if !self.products@.contains_key(product_id) {
            Some(Error::ProductNotFound)
        } else if self.products@[product_id].status == ProductStatus::Recalled {
            Some(Error::AlreadyRecalled)
        } else {
            None
        }
    }

    /// An inspector files the product's quality report (replacing any
    /// earlier one); a pass approves the product, a fail rejects it and a
    /// pending result puts it under quality check.
    pub fn submit_quality_report(
        &mut self,
        now: u64,
        inspector: Address,
        product_id: u32,
        result: QualityResult,
        report_hash: u64,
    ) -> (r: Result<(), Error>)
        ensures
            match old(self).report_error(inspector, product_id) {
                Some(e) => r == Err::<(), Error>(e) && *final(self) == *old(self),
                None => {
                    &&& r is Ok
                    &&& final(self).quality_reports@ == old(self).quality_reports@.insert(
                        product_id,
                        QualityReport { product_id, inspector, result, report_hash, timestamp: now },
                    )
                    &&& Self::product_moved(old(self), final(self), product_id, Self::status_for(result), now)
                    &&& *final(self) == (SupplyChain {
                        products: final(self).products,
                        quality_reports: final(self).quality_reports,
                        ..*old(self)
                    })
                },
            },
    {
        if !Self::has_role(&self.inspectors, inspector) {
            return Err(Error::NotInspector);
        }
        match self.products.get(&product_id) {
            None => return Err(Error::ProductNotFound),
            Some(p) => {
                if p.status == ProductStatus::Recalled {
                    return Err(Error::AlreadyRecalled);
                }
            },
        }
        self.quality_reports.insert(product_id, QualityReport { product_id, inspector, result, report_hash, timestamp: now });
        let status = match result {
            QualityResult::Pass => ProductStatus::Approved,
            QualityResult::Fail => ProductStatus::Rejected,
            QualityResult::Pending => ProductStatus::QualityCheck,
        };
        self.set_product_status(product_id, status, now);
        Ok(())
    }

    /// Why `recall_product` fails, if it does.
    pub open spec fn recall_error(&self, caller: Address, product_id: u32) -> Option<Error> {
        if self.admin_error(caller) is Some {
            self.admin_error(caller)
        } else if !self.products@.contains_key(product_id) {
            Some(Error::ProductNotFound)
        } else if self.products@[product_id].status == ProductStatus::Recalled {
            Some(Error::AlreadyRecalled)
        } else {
            None
        }
    }

    /// The admin recalls a product; a recalled product accepts no further
    /// checkpoint, status change or report.
    pub fn recall_product(&mut self, now: u64, caller: Address, product_id: u32) -> (r: Result<(), Error>)
        ensures
            match old(self).recall_error(caller, product_id) {
                Some(e) => r == Err::<(), Error>(e) && *final(self) == *old(self),
                None => r is Ok && Self::product_moved(old(self), final(self), product_id, ProductStatus::Recalled, now)
                    && *final(self) == (SupplyChain { products: final(self).products, ..*old(self) }),
            },
    {
        self.check_admin(caller)?;
        match self.products.get(&product_id) {
            None => return Err(Error::ProductNotFound),
            Some(p) => {
                if p.status == ProductStatus::Recalled {
                    return Err(Error::AlreadyRecalled);
                }
            },
        }
        self.set_product_status(product_id, ProductStatus::Recalled, now);
        Ok(())
    }

    /// Anyone opens a cold-chain agreement for a product with a proper
    /// temperature range, running `duration_seconds` from `now`.  Returns
    /// its id.
    pub fn create_cold_chain_sla(
        &mut self,
        now: u64,
        caller: Address,
        product_id: u32,
        min_temp_celsius: i32,
        max_temp_celsius: i32,
        max_violation_minutes: u32,
        penalty_per_violation: i128,
        deposit_amount: i128,
        duration_seconds: u64,
    ) -> (r: Result<u32, Error>)
        requires
            old(self).wf(),
            min_temp_celsius < max_temp_celsius ==> old(self).slas@.len() < u32::MAX && now + duration_seconds
                <= u64::MAX,
        ensures
            final(self).wf(),
            min_temp_celsius >= max_temp_celsius ==> r == Err::<u32, Error>(Error::InvalidTemperatureRange) && *final(
                self) == *old(self),
            min_temp_celsius < max_temp_celsius ==> {
                let id = (old(self).slas@.len() + 1) as u32;
                &&& r == Ok::<u32, Error>(id)
                &&& final(self).slas@ == old(self).slas@.push(
                    ColdChainSla {
                        id,
                        product_id,
                        min_temp_celsius,
                        max_temp_celsius,
                        max_violation_minutes,
                        penalty_per_violation,
                        deposit_amount,
                        status: SlaStatus::Active,
                        created_at: now,
                        expires_at: (now + duration_seconds) as u64,
                        violation_count: 0,
                        total_penalties: 0,
                    },
                )
                &&& *final(self) == (SupplyChain { slas: final(self).slas, ..*old(self) })
            },
    {
        if min_temp_celsius >= max_temp_celsius {
            return Err(Error::InvalidTemperatureRange);
        }
        let id = (self.slas.len() + 1) as u32;
        self.slas.push(
            ColdChainSla {
                id,
                product_id,
                min_temp_celsius,
                max_temp_celsius,
                max_violation_minutes,
                penalty_per_violation,
                deposit_amount,
                status: SlaStatus::Active,
                created_at: now,
                expires_at: now + duration_seconds,
                violation_count: 0,
                total_penalties: 0,
            },
        );
        Ok(id)
    }

    fn governing_sla(&self, product_id: u32, now: u64) -> (r: Option<usize>)
        ensures
            match r {
                Some(j) => first_match(self.slas@, governs(product_id, now)) == Some(j as int) && j
                    < self.slas@.len(),
                None => first_match(self.slas@, governs(product_id, now)) is None,
            },
    {
        let mut i: usize = 0;
        while i < self.slas.len()
            invariant
                0 <= i <= self.slas@.len(),
                forall|k: int| 0 <= k < i ==> !governs(product_id, now)(self.slas@[k]),
            decreases self.slas@.len() - i,
        {
            let s = self.slas[i];
            if s.product_id == product_id && s.status == SlaStatus::Active && now <= s.expires_at {
                proof {
                    assert(is_first_match(self.slas@, governs(product_id, now), i as int));
                    lemma_first_match_is(self.slas@, governs(product_id, now), i as int);
                }
                return Some(i);
            }
            i = i + 1;
        }
        proof {
            lemma_first_match_none(self.slas@, governs(product_id, now));
        }
        None
    }

    fn classify_temperature(s: &ColdChainSla, t: i32) -> (r: TemperatureLogStatus)
        requires
            s.min_temp_celsius < s.max_temp_celsius,
        ensures
            r == classify(*s, t),
    {
        if t < s.min_temp_celsius || t > s.max_temp_celsius {
            return TemperatureLogStatus::Violation;
        }
        let range = s.max_temp_celsius as i64 - s.min_temp_celsius as i64;
        let buffer: i64 = if range >= 15 {
            5
        } else {
            range / 6
        };
        if buffer > 0 && ((t as i64) < s.min_temp_celsius as i64 + buffer || (t as i64) > s.max_temp_celsius as i64
            - buffer) {
            return TemperatureLogStatus::Warning;
        }
        TemperatureLogStatus::Normal
    }

    /// SLA temperature ranges are proper and ids match positions.
    pub open spec fn wf(&self) -> bool {
        &&& self.slas@.len() <= u32::MAX
        &&& forall|i: int| 0 <= i < self.slas@.len() ==> {
            &&& (#[trigger] self.slas@[i]).min_temp_celsius < self.slas@[i].max_temp_celsius
            &&& self.slas@[i].id == i + 1
        }
        &&& self.penalties@.len() <= u32::MAX
    }

    /// Why `log_temperature` fails, if it does: a violation must be
    /// charged, which needs the admin and the product.
    pub open spec fn log_error(&self, now: u64, product_id: u32, t: i32) -> Option<Error> {
        if self.temperature_status(product_id, now, t) != TemperatureLogStatus::Violation {
            None
        } else if self.admin is None {
            Some(Error::NotInitialized)
        } else if !self.products@.contains_key(product_id) {
            Some(Error::ProductNotFound)
        } else {
            None
        }
    }

    /// Anyone logs a temperature reading for a product at `now`; it is
    /// classified against the governing SLA.  A violation lapses the
    /// product's expired agreements in front of it, charges one penalty on
    /// the governing SLA and marks the product as violating.
    pub fn log_temperature(
        &mut self,
        now: u64,
        recorder: Address,
        product_id: u32,
        temperature_celsius: i32,
        humidity_percent: u32,
        proof_hash: u64,
    ) -> (r: Result<(), Error>)
        requires
            old(self).wf(),
            old(self).log_error(now, product_id, temperature_celsius) is None && old(self).temperature_status(
                product_id,
                now,
                temperature_celsius,
            ) == TemperatureLogStatus::Violation ==> {
                let j = first_match(old(self).slas@, governs(product_id, now))->0;
                let s = old(self).slas@[j];
                &&& old(self).penalties@.len() < u32::MAX
                &&& s.violation_count < u32::MAX
                &&& fits_i128(s.total_penalties + s.penalty_per_violation)
            },
        ensures
            final(self).wf(),
            match old(self).log_error(now, product_id, temperature_celsius) {
                Some(e) => r == Err::<(), Error>(e) && *final(self) == *old(self),
                None => {
                    let status = old(self).temperature_status(product_id, now, temperature_celsius);
                    &&& r is Ok
                    &&& final(self).temperature_logs@ == old(self).temperature_logs@.insert(
                        log_key(product_id, now),
                        TemperatureLog {
                            product_id,
                            timestamp: now,
                            temperature_celsius,
                            humidity_percent,
                            status,
                            recorded_by: recorder,
                            proof_hash,
                        },
                    )
                    &&& status != TemperatureLogStatus::Violation ==> *final(self) == (SupplyChain {
                        temperature_logs: final(self).temperature_logs,
                        ..*old(self)
                    })
                    &&& status == TemperatureLogStatus::Violation ==> {
                        let j = first_match(old(self).slas@, governs(product_id, now))->0;
                        let s = old(self).slas@[j];
                        &&& final(self).slas@ == lapse_before(old(self).slas@, product_id, now, j).update(
                            j,
                            ColdChainSla {
                                violation_count: (s.violation_count + 1) as u32,
                                total_penalties: (s.total_penalties + s.penalty_per_violation) as i128,
                                ..s
                            },
                        )
                        &&& final(self).penalties@ == old(self).penalties@.push(
                            PenaltyRecord {
                                id: (old(self).penalties@.len() + 1) as u32,
                                sla_id: (j + 1) as u32,
                                product_id,
                                violation_timestamp: now,
                                duration_minutes: 1,
                                penalty_amount: s.penalty_per_violation,
                                recorded_by: old(self).admin->0,
                            },
                        )
                        &&& Self::product_moved(
                            old(self),
                            final(self),
                            product_id,
                            ProductStatus::TemperatureViolation,
                            now,
                        )
                        &&& *final(self) == (SupplyChain {
                            temperature_logs: final(self).temperature_logs,
                            slas: final(self).slas,
                            penalties: final(self).penalties,
                            products: final(self).products,
                            ..*old(self)
                        })
                    }
                },
            },
    {
        let slot = self.governing_sla(product_id, now);
        let status = match slot {
            Some(j) => Self::classify_temperature(&self.slas[j], temperature_celsius),
            None => TemperatureLogStatus::Normal,
        };
        if status == TemperatureLogStatus::Violation {
            let admin = match self.admin {
                None => return Err(Error::NotInitialized),
                Some(a) => a,
            };
            if !self.products.contains_key(&product_id) {
                return Err(Error::ProductNotFound);
            }
            let j = slot.unwrap();
            let ghost s0 = self.slas@;
            let mut k: usize = 0;
            while k < j
                invariant
                    0 <= k <= j < s0.len(),
                    self.slas@.len() == s0.len(),
                    s0 == old(self).slas@,
                    self.penalties@ == old(self).penalties@,
                    self.products@ == old(self).products@,
                    self.temperature_logs@ == old(self).temperature_logs@,
                    *self == (SupplyChain { slas: self.slas, ..*old(self) }),
                    self.products@.contains_key(product_id),
                    self.penalties@.len() < u32::MAX,
                    s0[j as int].violation_count < u32::MAX,
                    fits_i128(s0[j as int].total_penalties + s0[j as int].penalty_per_violation),
                    first_match(s0, governs(product_id, now)) == Some(j as int),
                    forall|i: int| 0 <= i < s0.len() ==> #[trigger] self.slas@[i] == (if i < k {
                        lapse_before(s0, product_id, now, j as int)[i]
                    } else {
                        s0[i]
                    }),
                decreases j - k,
            {
                let s = self.slas[k];
                if s.product_id == product_id && s.status == SlaStatus::Active && now > s.expires_at {
                    self.slas.set(k, ColdChainSla { status: SlaStatus::Expired, ..s });
                }
                k = k + 1;
            }
            let s = self.slas[j];
            let pid = (self.penalties.len() + 1) as u32;
            self.penalties.push(
                PenaltyRecord {
                    id: pid,
                    sla_id: (j + 1) as u32,
                    product_id,
                    violation_timestamp: now,
                    duration_minutes: 1,
                    penalty_amount: s.penalty_per_violation,
                    recorded_by: admin,
                },
            );
            self.slas.set(
                j,
                ColdChainSla {
                    violation_count: s.violation_count + 1,
                    total_penalties: s.total_penalties + s.penalty_per_violation,
                    ..s
                },
            );
            proof {
                assert(self.slas@ =~= lapse_before(s0, product_id, now, j as int).update(j as int, self.slas@[j as int]));
            }
            self.set_product_status(product_id, ProductStatus::TemperatureViolation, now);
        }
        let key = product_id as u128 * 0x1_0000_0000_0000_0000 + now as u128;
        self.temperature_logs.insert(
            key,
            TemperatureLog {
                product_id,
                timestamp: now,
                temperature_celsius,
                humidity_percent,
                status,
                recorded_by: recorder,
                proof_hash,
            },
        );
        Ok(())
    }

    pub fn get_temperature_log(&self, product_id: u32, timestamp: u64) -> (r: Option<TemperatureLog>)
        ensures
            self.temperature_logs@.contains_key(log_key(product_id, timestamp)) ==> r == Some(
                self.temperature_logs@[log_key(product_id, timestamp)],
            ),
            !self.temperature_logs@.contains_key(log_key(product_id, timestamp)) ==> r is None,
    {
        let key = product_id as u128 * 0x1_0000_0000_0000_0000 + timestamp as u128;
        match self.temperature_logs.get(&key) {
            Some(l) => Some(*l),
            None => None,
        }
    }

    pub fn get_cold_chain_sla(&self, sla_id: u32) -> (r: Result<ColdChainSla, Error>)
        ensures
            1 <= sla_id <= self.slas@.len() ==> r == Ok::<ColdChainSla, Error>(self.slas@[sla_id - 1]),
            !(1 <= sla_id <= self.slas@.len()) ==> r == Err::<ColdChainSla, Error>(Error::SlaNotFound),
    {
        if sla_id == 0 || sla_id as usize > self.slas.len() {
            return Err(Error::SlaNotFound);
        }
        Ok(self.slas[(sla_id - 1) as usize])
    }

    pub fn get_penalty_record(&self, penalty_id: u32) -> (r: Result<PenaltyRecord, Error>)
        ensures
            1 <= penalty_id <= self.penalties@.len() ==> r == Ok::<PenaltyRecord, Error>(
                self.penalties@[penalty_id - 1],
            ),
            !(1 <= penalty_id <= self.penalties@.len()) ==> r == Err::<PenaltyRecord, Error>(Error::PenaltyNotFound),
    {
        if penalty_id == 0 || penalty_id as usize > self.penalties.len() {
            return Err(Error::PenaltyNotFound);
        }
        Ok(self.penalties[(penalty_id - 1) as usize])
    }

    pub fn get_penalty_count(&self) -> (n: u32)
        requires
            self.wf(),
        ensures
            n == self.penalties@.len(),
    {
        self.penalties.len() as u32
    }

    pub fn get_sla_count(&self) -> (n: u32)
        requires
            self.wf(),
        ensures
            n == self.slas@.len(),
    {
        self.slas.len() as u32
    }

    pub fn get_product(&self, product_id: u32) -> (r: Result<&Product, Error>)
        ensures
            self.products@.contains_key(product_id) ==> r == Ok::<&Product, Error>(&self.products@[product_id]),
            !self.products@.contains_key(product_id) ==> r == Err::<&Product, Error>(Error::ProductNotFound),
    {
        match self.products.get(&product_id) {
            Some(p) => Ok(p),
            None => Err(Error::ProductNotFound),
        }
    }

    pub fn get_checkpoint(&self, product_id: u32, index: u32) -> (r: Result<Checkpoint, Error>)
        ensures
            self.checkpoints@.contains_key(checkpoint_key(product_id, index)) ==> r == Ok::<Checkpoint, Error>(
                self.checkpoints@[checkpoint_key(product_id, index)],
            ),
            !self.checkpoints@.contains_key(checkpoint_key(product_id, index)) ==> r == Err::<Checkpoint, Error>(
                Error::ProductNotFound,
            ),
    {
        let k = checkpoint_key_of(product_id, index);
        match self.checkpoints.get(&k) {
            Some(c) => Ok(*c),
            None => Err(Error::ProductNotFound),
        }
    }

    pub fn get_checkpoint_count(&self, product_id: u32) -> (n: u32)
        ensures
            n == self.spec_checkpoint_count(product_id),
    {
        match self.checkpoint_counts.get(&product_id) {
            Some(c) => *c,
            None => 0,
        }
    }

    pub fn get_quality_report(&self, product_id: u32) -> (r: Result<QualityReport, Error>)
        ensures
            self.quality_reports@.contains_key(product_id) ==> r == Ok::<QualityReport, Error>(
                self.quality_reports@[product_id],
            ),
            !self.quality_reports@.contains_key(product_id) ==> r == Err::<QualityReport, Error>(
                Error::ReportNotFound,
            ),
    {
        match self.quality_reports.get(&product_id) {
            Some(q) => Ok(*q),
            None => Err(Error::ReportNotFound),
        }
    }

    pub fn product_count(&self) -> (n: u32)
        ensures
            n == self.product_count,
    {
        self.product_count
    }
}

/// A recalled product is frozen: no checkpoint, status update, quality
/// report or second recall is accepted for it.
pub proof fn lemma_recall_is_final(c: SupplyChain, caller: Address, handler: Address, inspector: Address, product_id: u32)
    requires
        c.products@.contains_key(product_id),
        c.products@[product_id].status == ProductStatus::Recalled,
    ensures
        c.checkpoint_error(handler, product_id) is Some,
        c.status_error(caller, product_id) is Some,
        c.report_error(inspector, product_id) is Some,
        c.recall_error(caller, product_id) is Some,
{
}

} // verus!
