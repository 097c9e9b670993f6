//! Peer-to-peer energy trading: prosumers register smart meters, submit
//! readings that move their kWh balances, post sell orders and accept each
//! other's orders.
use vstd::prelude::*;
use std::collections::HashMap;
use crate::common::{Address, Text, fits_i128};

verus! {

broadcast use vstd::std_specs::hash::group_hash_axioms;

#[derive(Clone, Copy, Debug, PartialEq, Eq, Structural)]
pub enum Error {
    AlreadyInitialized,
    NotInitialized,
    Unauthorized,
    AlreadyExists,
    InvalidStatus,
    EmptyField,
    InsufficientBalance,
    MeterNotFound,
    TradeNotFound,
    InvalidTradeAmount,
    SelfTrade,
    TradeAlreadySettled,
    InvalidMeterReading,
    MeterNotRegistered,
}

#[derive(Clone, Copy, Debug, PartialEq, Eq, Structural)]
pub enum TradeStatus {
    Open,
    Matched,
    Settled,
    Cancelled,
}

#[derive(Clone, Copy, Debug, PartialEq, Eq, Structural)]
pub enum EnergyType {
    Solar,
    Wind,
    Hydro,
    Battery,
    Grid,
}

#[derive(Clone, Copy, Debug, PartialEq, Eq, Structural)]
pub enum MeterStatus {
    Active,
    Inactive,
    Suspended,
}

/// A registered smart meter.
#[derive(Clone, Debug)]
pub struct SmartMeter {
    pub id: u32,
    pub owner: Address,
    pub location: Text,
    pub energy_type: EnergyType,
    pub capacity_kw: i128,
    pub status: MeterStatus,
    pub registered_at: u64,
    pub last_reading: u64,
    pub total_generated: i128,
}

/// A reading submitted for a meter at a moment.
#[derive(Clone, Copy, Debug, PartialEq, Eq, Structural)]
pub struct MeterReading {
    pub meter_id: u32,
    pub timestamp: u64,
    pub kwh_generated: i128,
    pub kwh_consumed: i128,
    pub proof_hash: u64,
    pub verified: bool,
}

#[derive(Clone, Copy, Debug, PartialEq, Eq, Structural)]
pub struct TradeOrder {
    pub id: u32,
    pub seller_meter_id: u32,
    pub buyer: Option<Address>,
    pub energy_type: EnergyType,
    pub kwh_amount: i128,
    pub price_per_kwh: i128,
    pub total_price: i128,
    pub status: TradeStatus,
    pub created_at: u64,
    pub settled_at: Option<u64>,
}

#[derive(Clone, Copy, Debug, PartialEq, Eq, Structural)]
pub struct EnergyTrade {
    pub id: u32,
    pub seller: Address,
    pub buyer: Address,
    pub seller_meter_id: u32,
    pub buyer_meter_id: u32,
    pub kwh_amount: i128,
    pub price_per_kwh: i128,
    pub total_price: i128,
    pub energy_type: EnergyType,
    pub status: TradeStatus,
    pub created_at: u64,
    pub settled_at: Option<u64>,
}

#[derive(Clone, Copy, Debug, PartialEq, Eq, Structural)]
pub struct EnergyBalance {
    pub address: Address,
    pub kwh_balance: i128,
    pub total_earned: i128,
    pub total_spent: i128,
}

/// Orders and executed trades share one id space and one storage slot per
/// id.
#[derive(Clone, Copy, Debug, PartialEq, Eq, Structural)]
pub enum TradeRecord {
    Order(TradeOrder),
    Trade(EnergyTrade),
}

/// The energy trading contract's storage.  A reading is stored under
/// `reading_key(meter_id, timestamp)`.
pub struct EnergyTrading {
    pub admin: Option<Address>,
    pub meter_count: u32,
    pub trade_count: u32,
    pub total_energy_traded: i128,
    pub meters: HashMap<u32, SmartMeter>,
    pub readings: HashMap<u128, MeterReading>,
    pub trades: HashMap<u32, TradeRecord>,
    pub balances: HashMap<Address, EnergyBalance>,
}

pub open spec fn reading_key(meter_id: u32, timestamp: u64) -> u128 {
    (meter_id as int * 0x1_0000_0000_0000_0000 + timestamp as int) as u128
}

fn reading_key_of(meter_id: u32, timestamp: u64) -> (k: u128)
    ensures
        k == reading_key(meter_id, timestamp),
{
    meter_id as u128 * 0x1_0000_0000_0000_0000 + timestamp as u128
}

impl EnergyTrading {
    /// The balance of an address; all zero when none was recorded.
    pub open spec fn spec_balance(&self, a: Address) -> EnergyBalance {
        if self.balances@.contains_key(a) {
            self.balances@[a]
        } else {
            EnergyBalance { address: a, kwh_balance: 0, total_earned: 0, total_spent: 0 }
        }
    }

    /// The record under `id` is a sell order.
    pub open spec fn spec_order(&self, id: u32) -> Option<TradeOrder> {
        if self.trades@.contains_key(id) {
            match self.trades@[id] {
                TradeRecord::Order(o) => Some(o),
                TradeRecord::Trade(_) => None,
            }
        } else {
            None
        }
    }

    /// The record under `id` is an executed trade, which reading it as an
    /// order cannot decode.
    pub open spec fn holds_trade(&self, id: u32) -> bool {
        self.trades@.contains_key(id) && self.trades@[id] is Trade
    }

    /// The record under `id` is an order, which reading it as a trade
    /// cannot decode.
    pub open spec fn holds_order(&self, id: u32) -> bool {
        self.trades@.contains_key(id) && self.trades@[id] is Order
    }

    /// Empty storage.
    pub fn new() -> (s: Self)
        ensures
            s.admin is None,
            s.meter_count == 0,
            s.trade_count == 0,
            s.total_energy_traded == 0,
            s.meters@ == Map::<u32, SmartMeter>::empty(),
            s.readings@ == Map::<u128, MeterReading>::empty(),
            s.trades@ == Map::<u32, TradeRecord>::empty(),
            s.balances@ == Map::<Address, EnergyBalance>::empty(),
    {
        EnergyTrading {
            admin: None,
            meter_count: 0,
            trade_count: 0,
            total_energy_traded: 0,
            meters: HashMap::new(),
            readings: HashMap::new(),
            trades: HashMap::new(),
            balances: HashMap::new(),
        }
    }

    /// Record the admin once and zero the traded total.
    pub fn initialize(&mut self, admin: Address) -> (r: Result<(), Error>)
        ensures
            old(self).admin is Some ==> r == Err::<(), Error>(Error::AlreadyInitialized) && *final(self) == *old(self),
            old(self).admin is None ==> r is Ok && *final(self) == (EnergyTrading {
                admin: Some(admin),
                total_energy_traded: 0,
                ..*old(self)
            }),
    {
        if self.admin.is_some() {
            return Err(Error::AlreadyInitialized);
        }
        self.admin = Some(admin);
        self.total_energy_traded = 0;
        Ok(())
    }

    /// Register a meter with a non-empty location and positive capacity.
    /// Returns its id (the meter count after counting it).
    pub fn register_meter(
        &mut self,
        now: u64,
        owner: Address,
        location: Text,
        energy_type: EnergyType,
        capacity_kw: i128,
    ) -> (r: Result<u32, Error>)
        requires
            location@.len() > 0 && capacity_kw > 0 ==> old(self).meter_count < u32::MAX,
        ensures
            location@.len() == 0 ==> r == Err::<u32, Error>(Error::EmptyField) && *final(self) == *old(self),
            location@.len() > 0 && capacity_kw <= 0 ==> r == Err::<u32, Error>(Error::InvalidMeterReading)
                && *final(self) == *old(self),
            location@.len() > 0 && capacity_kw > 0 ==> {
                let id = (old(self).meter_count + 1) as u32;
                &&& r == Ok::<u32, Error>(id)
                &&& final(self).meter_count == id
                &&& final(self).meters@ == old(self).meters@.insert(
                    id,
                    SmartMeter {
                        id,
                        owner,
                        location,
                        energy_type,
                        capacity_kw,
                        status: MeterStatus::Active,
                        registered_at: now,
                        last_reading: 0,
                        total_generated: 0,
                    },
                )
                &&& final(self).readings@ == old(self).readings@
                &&& final(self).trades@ == old(self).trades@
                &&& final(self).balances@ == old(self).balances@
                &&& final(self).trade_count == old(self).trade_count
                &&& final(self).total_energy_traded == old(self).total_energy_traded
                &&& final(self).admin == old(self).admin
            },
    {
        if location.len() == 0 {
            return Err(Error::EmptyField);
        }
        if capacity_kw <= 0 {
            return Err(Error::InvalidMeterReading);
        }
        let id = self.meter_count + 1;
        self.meter_count = id;
        self.meters.insert(
            id,
            SmartMeter {
                id,
                owner,
                location,
                energy_type,
                capacity_kw,
                status: MeterStatus::Active,
                registered_at: now,
                last_reading: 0,
                total_generated: 0,
            },
        );
        Ok(id)
    }

    /// Replace a stored meter's status, last reading time and generated
    /// total.
    fn update_meter(&mut self, id: u32, status: MeterStatus, last_reading: u64, total_generated: i128)
        requires
            old(self).meters@.contains_key(id),
        ensures
            final(self).meters@ == old(self).meters@.insert(id, final(self).meters@[id]),
            final(self).meters@[id].id == old(self).meters@[id].id,
            final(self).meters@[id].owner == old(self).meters@[id].owner,
            final(self).meters@[id].location == old(self).meters@[id].location,
            final(self).meters@[id].energy_type == old(self).meters@[id].energy_type,
            final(self).meters@[id].capacity_kw == old(self).meters@[id].capacity_kw,
            final(self).meters@[id].registered_at == old(self).meters@[id].registered_at,
            final(self).meters@[id].status == status,
            final(self).meters@[id].last_reading == last_reading,
            final(self).meters@[id].total_generated == total_generated,
            final(self).readings@ == old(self).readings@,
            final(self).trades@ == old(self).trades@,
            final(self).balances@ == old(self).balances@,
            final(self).meter_count == old(self).meter_count,
            final(self).trade_count == old(self).trade_count,
            final(self).total_energy_traded == old(self).total_energy_traded,
            final(self).admin == old(self).admin,
    {
        let m = self.meters.remove(&id).unwrap();
        self.meters.insert(
            id,
            SmartMeter {
                id: m.id,
                owner: m.owner,
                location: m.location,
                energy_type: m.energy_type,
                capacity_kw: m.capacity_kw,
                status,
                registered_at: m.registered_at,
                last_reading,
                total_generated,
            },
        );
        proof {
            assert(self.meters@ =~= old(self).meters@.insert(id, self.meters@[id]));
        }
    }

    /// The meter's owner switches it off.
    pub fn deactivate_meter(&mut self, caller: Address, meter_id: u32) -> (r: Result<(), Error>)
        ensures
            !old(self).meters@.contains_key(meter_id) ==> r == Err::<(), Error>(Error::MeterNotFound) && *final(self)
                == *old(self),
            old(self).meters@.contains_key(meter_id) && old(self).meters@[meter_id].owner != caller ==> r == Err::<
                (),
                Error,
            >(Error::Unauthorized) && *final(self) == *old(self),
            old(self).meters@.contains_key(meter_id) && old(self).meters@[meter_id].owner == caller ==> {
                let o = old(self).meters@[meter_id];
                let n = final(self).meters@[meter_id];
                &&& r is Ok
                &&& final(self).meters@ == old(self).meters@.insert(meter_id, n)
                &&& n.status == MeterStatus::Inactive
                &&& n.id == o.id && n.owner == o.owner && n.location == o.location && n.energy_type == o.energy_type
                &&& n.capacity_kw == o.capacity_kw && n.registered_at == o.registered_at
                &&& n.last_reading == o.last_reading && n.total_generated == o.total_generated
                &&& final(self).readings@ == old(self).readings@
                &&& final(self).trades@ == old(self).trades@
                &&& final(self).balances@ == old(self).balances@
                &&& final(self).meter_count == old(self).meter_count
                &&& final(self).trade_count == old(self).trade_count
                &&& final(self).total_energy_traded == old(self).total_energy_traded
                &&& final(self).admin == old(self).admin
            },
    {
        let (last, total) = match self.meters.get(&meter_id) {
            None => return Err(Error::MeterNotFound),
            Some(m) => {
                if m.owner != caller {
                    return Err(Error::Unauthorized);
                }
                (m.last_reading, m.total_generated)
            },
        };
        self.update_meter(meter_id, MeterStatus::Inactive, last, total);
        Ok(())
    }

    /// Why `submit_reading` fails, if it does.
    pub open spec fn reading_error(&self, owner: Address, meter_id: u32, kwh_generated: i128, kwh_consumed: i128) -> Option<
        Error,
    > {
        if !self.meters@.contains_key(meter_id) {
            Some(Error::MeterNotFound)
        } else if self.meters@[meter_id].owner != owner {
            Some(Error::Unauthorized)
        } else if self.meters@[meter_id].status != MeterStatus::Active {
            Some(Error::MeterNotRegistered)
        } else if kwh_generated < 0 || kwh_consumed < 0 {
            Some(Error::InvalidMeterReading)
        } else {
            None
        }
    }

    /// The owner of an active meter submits a reading taken at `now`: it is
    /// stored (as verified), the meter's generated total grows, and the
    /// owner's kWh balance moves by generation less consumption.
    pub fn submit_reading(
        &mut self,
        now: u64,
        owner: Address,
        meter_id: u32,
        kwh_generated: i128,
        kwh_consumed: i128,
        proof_hash: u64,
    ) -> (r: Result<(), Error>)
        requires
            old(self).reading_error(owner, meter_id, kwh_generated, kwh_consumed) is None ==> {
                &&& fits_i128(old(self).meters@[meter_id].total_generated + kwh_generated)
                &&& fits_i128(old(self).spec_balance(owner).kwh_balance + (kwh_generated - kwh_consumed))
            },
        ensures
            match old(self).reading_error(owner, meter_id, kwh_generated, kwh_consumed) {
                Some(e) => r == Err::<(), Error>(e) && *final(self) == *old(self),
                None => {
                    let o = old(self).meters@[meter_id];
                    let n = final(self).meters@[meter_id];
                    let b = old(self).spec_balance(owner);
                    &&& r is Ok
                    &&& final(self).readings@ == old(self).readings@.insert(
                        reading_key(meter_id, now),
                        MeterReading {
                            meter_id,
                            timestamp: now,
                            kwh_generated,
                            kwh_consumed,
                            proof_hash,
                            verified: true,
                        },
                    )
                    &&& final(self).meters@ == old(self).meters@.insert(meter_id, n)
                    &&& n.last_reading == now
                    &&& n.total_generated == o.total_generated + kwh_generated
                    &&& n.id == o.id && n.owner == o.owner && n.location == o.location
                    &&& n.energy_type == o.energy_type && n.capacity_kw == o.capacity_kw
                    &&& n.status == o.status && n.registered_at == o.registered_at
                    &&& final(self).balances@ == old(self).balances@.insert(
                        owner,
                        EnergyBalance { kwh_balance: (b.kwh_balance + (kwh_generated - kwh_consumed)) as i128, ..b },
                    )
                    &&& final(self).trades@ == old(self).trades@
                    &&& final(self).meter_count == old(self).meter_count
                    &&& final(self).trade_count == old(self).trade_count
                    &&& final(self).total_energy_traded == old(self).total_energy_traded
                    &&& final(self).admin == old(self).admin
                },
            },
    {
        let (status, total) = match self.meters.get(&meter_id) {
            None => return Err(Error::MeterNotFound),
            Some(m) => {
                if m.owner != owner {
                    return Err(Error::Unauthorized);
                }
                if m.status != MeterStatus::Active {
                    return Err(Error::MeterNotRegistered);
                }
                (m.status, m.total_generated)
            },
        };
        if kwh_generated < 0 || kwh_consumed < 0 {
            return Err(Error::InvalidMeterReading);
        }
        let k = reading_key_of(meter_id, now);
        self.readings.insert(
            k,
            MeterReading { meter_id, timestamp: now, kwh_generated, kwh_consumed, proof_hash, verified: true },
        );
        self.update_meter(meter_id, status, now, total + kwh_generated);
        let b = self.load_balance(owner);
        self.balances.insert(owner, EnergyBalance { kwh_balance: b.kwh_balance + (kwh_generated - kwh_consumed), ..b });
        Ok(())
    }

    fn load_balance(&self, a: Address) -> (b: EnergyBalance)
        ensures
            b == self.spec_balance(a),
    {
        match self.balances.get(&a) {
            Some(b) => *b,
            None => EnergyBalance { address: a, kwh_balance: 0, total_earned: 0, total_spent: 0 },
        }
    }

    /// Why `create_sell_order` fails, if it does.
    pub open spec fn sell_error(&self, seller: Address, meter_id: u32, kwh_amount: i128, price_per_kwh: i128) -> Option<
        Error,
    > {
        if kwh_amount <= 0 || price_per_kwh <= 0 {
            Some(Error::InvalidTradeAmount)
        } else if !self.meters@.contains_key(meter_id) {
            Some(Error::MeterNotFound)
        } else if self.meters@[meter_id].owner != seller {
            Some(Error::Unauthorized)
        } else if self.spec_balance(seller).kwh_balance < kwh_amount {
            Some(Error::InsufficientBalance)
        } else {
            None
        }
    }

    /// A meter owner with enough kWh offers `kwh_amount` at
    /// `price_per_kwh`.  Returns the order id (the next trade id).
    pub fn create_sell_order(&mut self, now: u64, seller: Address, meter_id: u32, kwh_amount: i128, price_per_kwh: i128) -> (r:
        Result<u32, Error>)
        requires
            old(self).sell_error(seller, meter_id, kwh_amount, price_per_kwh) is None ==> old(self).trade_count
                < u32::MAX && fits_i128(kwh_amount * price_per_kwh),
        ensures
            match old(self).sell_error(seller, meter_id, kwh_amount, price_per_kwh) {
                Some(e) => r == Err::<u32, Error>(e) && *final(self) == *old(self),
                None => {
                    let id = (old(self).trade_count + 1) as u32;
                    &&& r == Ok::<u32, Error>(id)
                    &&& final(self).trade_count == id
                    &&& final(self).trades@ == old(self).trades@.insert(
                        id,
                        TradeRecord::Order(
                            TradeOrder {
                                id,
                                seller_meter_id: meter_id,
                                buyer: None,
                                energy_type: old(self).meters@[meter_id].energy_type,
                                kwh_amount,
                                price_per_kwh,
                                total_price: (kwh_amount * price_per_kwh) as i128,
                                status: TradeStatus::Open,
                                created_at: now,
                                settled_at: None,
                            },
                        ),
                    )
                    &&& final(self).meters@ == old(self).meters@
                    &&& final(self).readings@ == old(self).readings@
                    &&& final(self).balances@ == old(self).balances@
                    &&& final(self).meter_count == old(self).meter_count
                    &&& final(self).total_energy_traded == old(self).total_energy_traded
                    &&& final(self).admin == old(self).admin
                },
            },
    {
        if kwh_amount <= 0 || price_per_kwh <= 0 {
            return Err(Error::InvalidTradeAmount);
        }
        let energy_type = match self.meters.get(&meter_id) {
            None => return Err(Error::MeterNotFound),
            Some(m) => {
                if m.owner != seller {
                    return Err(Error::Unauthorized);
                }
                m.energy_type
            },
        };
        let b = self.load_balance(seller);
        if b.kwh_balance < kwh_amount {
            return Err(Error::InsufficientBalance);
        }
        let id = self.trade_count + 1;
        self.trade_count = id;
        self.trades.insert(
            id,
            TradeRecord::Order(
                TradeOrder {
                    id,
                    seller_meter_id: meter_id,
                    buyer: None,
                    energy_type,
                    kwh_amount,
                    price_per_kwh,
                    total_price: kwh_amount * price_per_kwh,
                    status: TradeStatus::Open,
                    created_at: now,
                    settled_at: None,
                },
            ),
        );
        Ok(id)
    }

    /// Why `accept_order` fails, if it does (for an id that does not hold
    /// an executed trade).
    pub open spec fn accept_error(&self, buyer: Address, order_id: u32, buyer_meter_id: u32) -> Option<Error> {
        match self.spec_order(order_id) {
            None => Some(Error::TradeNotFound),
            Some(o) => if o.status != TradeStatus::Open {
                Some(Error::InvalidStatus)
            } else if !self.meters@.contains_key(buyer_meter_id) {
                Some(Error::MeterNotFound)
            } else if self.meters@[buyer_meter_id].owner != buyer {
                Some(Error::Unauthorized)
            } else if !self.meters@.contains_key(o.seller_meter_id) {
                Some(Error::MeterNotFound)
            } else if self.meters@[o.seller_meter_id].owner == buyer {
                Some(Error::SelfTrade)
            } else {
                None
            },
        }
    }

    /// The balance and counter arithmetic of an acceptance stays in range.
    pub open spec fn accept_fits(&self, buyer: Address, order_id: u32) -> bool {
        let o = self.spec_order(order_id).unwrap();
        let seller = self.meters@[o.seller_meter_id].owner;
        let sb = self.spec_balance(seller);
        let bb = self.spec_balance(buyer);
        &&& self.trade_count < u32::MAX
        &&& fits_i128(sb.kwh_balance - o.kwh_amount)
        &&& fits_i128(sb.total_earned + o.total_price)
        &&& fits_i128(bb.kwh_balance + o.kwh_amount)
        &&& fits_i128(bb.total_spent + o.total_price)
        &&& fits_i128(self.total_energy_traded + o.kwh_amount)
    }

    /// Everything a successful acceptance changes.
    pub open spec fn accepted(&self, final_state: &Self, now: u64, buyer: Address, order_id: u32, buyer_meter_id: u32) -> bool {
        let o = self.spec_order(order_id).unwrap();
        let seller = self.meters@[o.seller_meter_id].owner;
        let sb = self.spec_balance(seller);
        let bb = self.spec_balance(buyer);
        let trade_id = (self.trade_count + 1) as u32;
        &&& final_state.trade_count == trade_id
        &&& final_state.trades@ == self.trades@.insert(
            trade_id,
            TradeRecord::Trade(
                EnergyTrade {
                    id: trade_id,
                    seller,
                    buyer,
                    seller_meter_id: o.seller_meter_id,
                    buyer_meter_id,
                    kwh_amount: o.kwh_amount,
                    price_per_kwh: o.price_per_kwh,
                    total_price: o.total_price,
                    energy_type: o.energy_type,
                    status: TradeStatus::Settled,
                    created_at: now,
                    settled_at: Some(now),
                },
            ),
        ).insert(
            order_id,
            TradeRecord::Order(
                TradeOrder { status: TradeStatus::Matched, buyer: Some(buyer), settled_at: Some(now), ..o },
            ),
        )
        &&& final_state.balances@ == self.balances@.insert(
            seller,
            EnergyBalance {
                kwh_balance: (sb.kwh_balance - o.kwh_amount) as i128,
                total_earned: (sb.total_earned + o.total_price) as i128,
                ..sb
            },
        ).insert(
            buyer,
            EnergyBalance {
                kwh_balance: (bb.kwh_balance + o.kwh_amount) as i128,
                total_spent: (bb.total_spent + o.total_price) as i128,
                ..bb
            },
        )
        &&& final_state.total_energy_traded == self.total_energy_traded + o.kwh_amount
        &&& final_state.meters@ == self.meters@
        &&& final_state.readings@ == self.readings@
        &&& final_state.meter_count == self.meter_count
        &&& final_state.admin == self.admin
    }

    /// A buyer takes an open order with one of its own meters: a settled
    /// trade is recorded under the next trade id, the order is matched, the
    /// seller's kWh fall by the amount while its earnings rise by the
    /// price, and the buyer receives the amount while its spending rises by
    /// the price.  Returns the trade id.
    pub fn accept_order(&mut self, now: u64, buyer: Address, order_id: u32, buyer_meter_id: u32) -> (r: Result<
        u32,
        Error,
    >)
        requires
            !old(self).holds_trade(order_id),
            old(self).accept_error(buyer, order_id, buyer_meter_id) is None ==> old(self).accept_fits(buyer, order_id),
        ensures
            match old(self).accept_error(buyer, order_id, buyer_meter_id) {
                Some(e) => r == Err::<u32, Error>(e) && *final(self) == *old(self),
                None => r == Ok::<u32, Error>((old(self).trade_count + 1) as u32) && old(self).accepted(
                    &*final(self),
                    now,
                    buyer,
                    order_id,
                    buyer_meter_id,
                ),
            },
    {
        let order = self.load_order(order_id)?;
        if order.status != TradeStatus::Open {
            return Err(Error::InvalidStatus);
        }
        match self.meters.get(&buyer_meter_id) {
            None => return Err(Error::MeterNotFound),
            Some(m) => {
                if m.owner != buyer {
                    return Err(Error::Unauthorized);
                }
            },
        }
        let seller = match self.meters.get(&order.seller_meter_id) {
            None => return Err(Error::MeterNotFound),
            Some(m) => m.owner,
        };
        if seller == buyer {
            return Err(Error::SelfTrade);
        }
        let trade_id = self.trade_count + 1;
        self.trade_count = trade_id;
        self.trades.insert(
            trade_id,
            TradeRecord::Trade(
                EnergyTrade {
                    id: trade_id,
                    seller,
                    buyer,
                    seller_meter_id: order.seller_meter_id,
                    buyer_meter_id,
                    kwh_amount: order.kwh_amount,
                    price_per_kwh: order.price_per_kwh,
                    total_price: order.total_price,
                    energy_type: order.energy_type,
                    status: TradeStatus::Settled,
                    created_at: now,
                    settled_at: Some(now),
                },
            ),
        );
        self.trades.insert(
            order_id,
            TradeRecord::Order(
                TradeOrder { status: TradeStatus::Matched, buyer: Some(buyer), settled_at: Some(now), ..order },
            ),
        );
        let sb = self.load_balance(seller);
        self.balances.insert(
            seller,
            EnergyBalance {
                kwh_balance: sb.kwh_balance - order.kwh_amount,
                total_earned: sb.total_earned + order.total_price,
                ..sb
            },
        );
        let bb = self.load_balance(buyer);
        self.balances.insert(
            buyer,
            EnergyBalance {
                kwh_balance: bb.kwh_balance + order.kwh_amount,
                total_spent: bb.total_spent + order.total_price,
                ..bb
            },
        );
        self.total_energy_traded = self.total_energy_traded + order.kwh_amount;
        Ok(trade_id)
    }

    fn load_order(&self, id: u32) -> (r: Result<TradeOrder, Error>)
        requires
            !self.holds_trade(id),
        ensures
            match self.spec_order(id) {
                Some(o) => r == Ok::<TradeOrder, Error>(o),
                None => r == Err::<TradeOrder, Error>(Error::TradeNotFound),
            },
    {
        match self.trades.get(&id) {
            Some(TradeRecord::Order(o)) => Ok(*o),
            _ => Err(Error::TradeNotFound),
        }
    }

    /// Why `cancel_order` fails, if it does (for an id that does not hold
    /// an executed trade).
    pub open spec fn cancel_error(&self, seller: Address, order_id: u32) -> Option<Error> {
        match self.spec_order(order_id) {
            None => Some(Error::TradeNotFound),
            Some(o) => if !self.meters@.contains_key(o.seller_meter_id) {
                Some(Error::MeterNotFound)
            } else if self.meters@[o.seller_meter_id].owner != seller {
                Some(Error::Unauthorized)
            } else if o.status != TradeStatus::Open {
                Some(Error::InvalidStatus)
            } else {
                None
            },
        }
    }

    /// The seller withdraws an open order.
    pub fn cancel_order(&mut self, seller: Address, order_id: u32) -> (r: Result<(), Error>)
        requires
            !old(self).holds_trade(order_id),
        ensures
            match old(self).cancel_error(seller, order_id) {
                Some(e) => r == Err::<(), Error>(e) && *final(self) == *old(self),
                None => {
                    let o = old(self).spec_order(order_id).unwrap();
                    &&& r is Ok
                    &&& final(self).trades@ == old(self).trades@.insert(
                        order_id,
                        TradeRecord::Order(TradeOrder { status: TradeStatus::Cancelled, ..o }),
                    )
                    &&& final(self).meters@ == old(self).meters@
                    &&& final(self).readings@ == old(self).readings@
                    &&& final(self).balances@ == old(self).balances@
                    &&& final(self).meter_count == old(self).meter_count
                    &&& final(self).trade_count == old(self).trade_count
                    &&& final(self).total_energy_traded == old(self).total_energy_traded
                    &&& final(self).admin == old(self).admin
                },
            },
    {
        let order = self.load_order(order_id)?;
        match self.meters.get(&order.seller_meter_id) {
            None => return Err(Error::MeterNotFound),
            Some(m) => {
                if m.owner != seller {
                    return Err(Error::Unauthorized);
                }
            },
        }
        if order.status != TradeStatus::Open {
            return Err(Error::InvalidStatus);
        }
        self.trades.insert(order_id, TradeRecord::Order(TradeOrder { status: TradeStatus::Cancelled, ..order }));
        Ok(())
    }

    pub fn get_meter(&self, meter_id: u32) -> (r: Result<&SmartMeter, Error>)
        ensures
            self.meters@.contains_key(meter_id) ==> r == Ok::<&SmartMeter, Error>(&self.meters@[meter_id]),
            !self.meters@.contains_key(meter_id) ==> r == Err::<&SmartMeter, Error>(Error::MeterNotFound),
    {
        match self.meters.get(&meter_id) {
            Some(m) => Ok(m),
            None => Err(Error::MeterNotFound),
        }
    }

    pub fn get_meter_reading(&self, meter_id: u32, timestamp: u64) -> (r: Option<MeterReading>)
        ensures
            self.readings@.contains_key(reading_key(meter_id, timestamp)) ==> r == Some(
                self.readings@[reading_key(meter_id, timestamp)],
            ),
            !self.readings@.contains_key(reading_key(meter_id, timestamp)) ==> r is None,
    {
        let k = reading_key_of(meter_id, timestamp);
        match self.readings.get(&k) {
            Some(x) => Some(*x),
            None => None,
        }
    }

    pub fn get_trade_order(&self, order_id: u32) -> (r: Result<TradeOrder, Error>)
        requires
            !self.holds_trade(order_id),
        ensures
            match self.spec_order(order_id) {
                Some(o) => r == Ok::<TradeOrder, Error>(o),
                None => r == Err::<TradeOrder, Error>(Error::TradeNotFound),
            },
    {
        self.load_order(order_id)
    }

    pub fn get_energy_trade(&self, trade_id: u32) -> (r: Result<EnergyTrade, Error>)
        requires
            !self.holds_order(trade_id),
        ensures
            self.holds_trade(trade_id) ==> r == Ok::<EnergyTrade, Error>(self.trades@[trade_id]->Trade_0),
            !self.trades@.contains_key(trade_id) ==> r == Err::<EnergyTrade, Error>(Error::TradeNotFound),
    {
        match self.trades.get(&trade_id) {
            Some(TradeRecord::Trade(t)) => Ok(*t),
            _ => Err(Error::TradeNotFound),
        }
    }

    pub fn get_balance(&self, address: Address) -> (b: EnergyBalance)
        ensures
            b == self.spec_balance(address),
    {
        self.load_balance(address)
    }

    pub fn get_total_energy_traded(&self) -> (t: i128)
        ensures
            t == self.total_energy_traded,
    {
        self.total_energy_traded
    }

    pub fn get_meter_count(&self) -> (n: u32)
        ensures
            n == self.meter_count,
    {
        self.meter_count
    }

    pub fn get_trade_count(&self) -> (n: u32)
        ensures
            n == self.trade_count,
    {
        self.trade_count
    }

    pub fn get_admin(&self) -> (r: Result<Address, Error>)
        ensures
            match self.admin {
                Some(a) => r == Ok::<Address, Error>(a),
                None => r == Err::<Address, Error>(Error::NotInitialized),
            },
    {
        match self.admin {
            Some(a) => Ok(a),
            None => Err(Error::NotInitialized),
        }
    }
}

/// An order is taken at most once: after a successful acceptance the same
/// order is no longer open, so accepting it again fails.
pub proof fn lemma_order_matched_once(
    before: EnergyTrading,
    after: EnergyTrading,
    now: u64,
    buyer: Address,
    order_id: u32,
    buyer_meter_id: u32,
    other: Address,
    other_meter: u32,
)
    requires
        before.accept_error(buyer, order_id, buyer_meter_id) is None,
        before.accepted(&after, now, buyer, order_id, buyer_meter_id),
    ensures
        after.accept_error(other, order_id, other_meter) == Some(Error::InvalidStatus),
{
    assert(after.trades@.contains_key(order_id));
}

/// Accepting an order moves exactly its amount of energy: the traded total
/// grows by it and the seller's kWh balance falls by it.
pub proof fn lemma_accept_moves_amount(
    before: EnergyTrading,
    after: EnergyTrading,
    now: u64,
    buyer: Address,
    order_id: u32,
    buyer_meter_id: u32,
)
    requires
        before.accept_error(buyer, order_id, buyer_meter_id) is None,
        before.accept_fits(buyer, order_id),
        before.accepted(&after, now, buyer, order_id, buyer_meter_id),
    ensures
        ({
            let o = before.spec_order(order_id).unwrap();
            let seller = before.meters@[o.seller_meter_id].owner;
            &&& after.total_energy_traded == before.total_energy_traded + o.kwh_amount
            &&& after.spec_balance(seller).kwh_balance == before.spec_balance(seller).kwh_balance - o.kwh_amount
            &&& after.spec_balance(buyer).kwh_balance == before.spec_balance(buyer).kwh_balance + o.kwh_amount
            &&& after.spec_balance(buyer).total_spent == before.spec_balance(buyer).total_spent + o.total_price
            &&& after.spec_balance(seller).total_earned == before.spec_balance(seller).total_earned + o.total_price
        }),
{
}

} // verus!
