//! The machine aggregate: a bounded collection of slots with unique
//! identifiers, the customer's inserted balance, the lifetime revenue,
//! and an operational flag that gates every mutation.

use vstd::prelude::*;
use vstd::string::*;

use crate::money::money_string;
use crate::money::Money;
use crate::money::MoneyError;
use crate::numfmt::dec_digits;
use crate::numfmt::u32_to_string;
use crate::numfmt::usize_to_string;
use crate::slot::can_dispense_view;
use crate::slot::slot_value;
use crate::slot::slot_wf;
use crate::slot::Slot;
use crate::slot::SlotError;
use crate::slot::SlotId;
use crate::slot::SlotView;
use crate::soda::soda_wf;
use crate::soda::Soda;
use crate::soda::SodaFlavor;
use crate::soda::SodaSize;
use crate::soda::SodaView;

verus! {

/// Identifier of a machine.
#[derive(Debug, Clone, Copy, PartialEq, Eq, Hash, PartialOrd, Ord, Structural)]
pub struct SodaMachineId(u32);

impl View for SodaMachineId {
    type V = u32;

    closed spec fn view(&self) -> u32 {
        self.0
    }
}

impl SodaMachineId {
    /// Wraps a numeric identifier.
    pub fn new(id: u32) -> (r: SodaMachineId)
        ensures
            r@ == id,
    {
        SodaMachineId(id)
    }

    /// The numeric identifier.
    pub fn value(&self) -> (r: u32)
        ensures
            r == self@,
    {
        self.0
    }
}

/// What a successful mutating operation did, reported to the caller.
#[derive(Debug, Clone, PartialEq, Eq)]
pub enum SodaMachineEvent {
    MoneyInserted { amount: Money, total_inserted: Money },
    MoneyReturned { amount: Money },
    SodaDispensed { slot_id: SlotId, soda: Soda },
    SlotConfigured { slot_id: SlotId, soda_type: Soda },
    SlotRefilled { slot_id: SlotId, quantity_added: u32 },
    MachineEnabled,
    MachineDisabled,
    ChangeReturned { amount: Money },
}

/// Errors from machine operations; lower-layer errors are wrapped,
/// never discarded.
#[derive(Debug, Clone, PartialEq, Eq)]
pub enum SodaMachineError {
    SlotNotFound(SlotId),
    SlotError(SlotError),
    MoneyError(MoneyError),
    InsufficientFunds { required: Money, available: Money },
    MachineNotOperational,
    InvalidSlotId,
    SlotAlreadyExists(SlotId),
    TooManySlots,
    InvalidAmount,
}

/// The message each machine error renders to.
pub open spec fn machine_error_string(e: SodaMachineError) -> Seq<char> {
    match e {
        SodaMachineError::SlotNotFound(slot_id) => "Slot "@ + dec_digits(slot_id@ as nat)
            + " not found"@,
        SodaMachineError::SlotError(err) => "Slot error: "@ + crate::slot::slot_error_string(err),
        SodaMachineError::MoneyError(err) => "Money error: "@ + crate::money::money_error_string(
            err,
        ),
        SodaMachineError::InsufficientFunds { required, available } => "Insufficient funds: need "@
            + money_string(required@) + ", have "@ + money_string(available@),
        SodaMachineError::MachineNotOperational => "Machine is not operational"@,
        SodaMachineError::InvalidSlotId => "Invalid slot ID"@,
        SodaMachineError::SlotAlreadyExists(slot_id) => "Slot "@ + dec_digits(slot_id@ as nat)
            + " already exists"@,
        SodaMachineError::TooManySlots => "Too many slots"@,
        SodaMachineError::InvalidAmount => "Invalid amount"@,
    }
}

impl SodaMachineError {
    /// The human-readable message for this error.
    pub fn to_string(&self) -> (s: String)
        ensures
            s@ == machine_error_string(*self),
    {
        match self {
            SodaMachineError::SlotNotFound(slot_id) => {
                let mut s = String::from_str("Slot ");
                let ids = u32_to_string(slot_id.value());
                s.append(ids.as_str());
                s.append(" not found");
                proof {
                    assert(s@ =~= machine_error_string(*self));
                }
                s
            },
            SodaMachineError::SlotError(err) => {
                let mut s = String::from_str("Slot error: ");
                let es = err.to_string();
                s.append(es.as_str());
                s
            },
            SodaMachineError::MoneyError(err) => {
                let mut s = String::from_str("Money error: ");
                let es = err.to_string();
                s.append(es.as_str());
                s
            },
            SodaMachineError::InsufficientFunds { required, available } => {
                let mut s = String::from_str("Insufficient funds: need ");
                let rs = required.to_string();
                s.append(rs.as_str());
                s.append(", have ");
                let avs = available.to_string();
                s.append(avs.as_str());
                proof {
                    assert(s@ =~= machine_error_string(*self));
                }
                s
            },
            SodaMachineError::MachineNotOperational => String::from_str(
                "Machine is not operational",
            ),
            SodaMachineError::InvalidSlotId => String::from_str("Invalid slot ID"),
            SodaMachineError::SlotAlreadyExists(slot_id) => {
                let mut s = String::from_str("Slot ");
                let ids = u32_to_string(slot_id.value());
                s.append(ids.as_str());
                s.append(" already exists");
                proof {
                    assert(s@ =~= machine_error_string(*self));
                }
                s
            },
            SodaMachineError::TooManySlots => String::from_str("Too many slots"),
            SodaMachineError::InvalidAmount => String::from_str("Invalid amount"),
        }
    }
}

/// The mathematical content of a machine.
#[verifier::ext_equal]
pub ghost struct MachineView {
    pub id: u32,
    pub slots: Seq<SlotView>,
    pub inserted: int,
    pub collected: int,
    pub operational: bool,
    pub max_slots: int,
}

/// A validly constructed machine: a positive slot ceiling respected by
/// the slot collection, unique slot identifiers, valid slots, and
/// non-negative balances.
pub open spec fn machine_wf(v: MachineView) -> bool {
    &&& v.max_slots > 0
    &&& v.slots.len() <= v.max_slots
    &&& (forall|i: int, j: int|
        #![trigger v.slots[i], v.slots[j]]
        0 <= i < j < v.slots.len() ==> v.slots[i].id != v.slots[j].id)
    &&& (forall|i: int| 0 <= i < v.slots.len() ==> slot_wf(#[trigger] v.slots[i]))
    &&& v.inserted >= 0
    &&& v.collected >= 0
}

/// Whether some slot carries the given identifier.
pub open spec fn has_slot_id(s: Seq<SlotView>, id: u32) -> bool {
    exists|i: int| 0 <= i < s.len() && (#[trigger] s[i]).id == id
}

/// The position of the slot with the given identifier; meaningful only
/// when `has_slot_id` holds and identifiers are unique.
pub open spec fn slot_index(s: Seq<SlotView>, id: u32) -> int {
    choose|i: int| 0 <= i < s.len() && (#[trigger] s[i]).id == id
}

/// The machine aggregate.
#[derive(Debug, Clone)]
pub struct SodaMachine {
    id: SodaMachineId,
    slots: Vec<Slot>,
    inserted_money: Money,
    total_collected: Money,
    is_operational: bool,
    max_slots: u32,
}

impl View for SodaMachine {
    type V = MachineView;

    closed spec fn view(&self) -> MachineView {
        MachineView {
            id: self.id@,
            slots: self.slots@.map_values(|s: Slot| s@),
            inserted: self.inserted_money@,
            collected: self.total_collected@,
            operational: self.is_operational,
            max_slots: self.max_slots as int,
        }
    }
}

impl SodaMachine {
    /// Creates an operational machine with no slots and zero balances;
    /// rejects a zero slot ceiling.
    pub fn new(id: SodaMachineId, max_slots: u32) -> (r: Result<SodaMachine, SodaMachineError>)
        ensures
            max_slots == 0 ==> r == Err::<SodaMachine, SodaMachineError>(
                SodaMachineError::InvalidAmount,
            ),
            max_slots > 0 ==> (r matches Ok(m) && m@ == (MachineView {
                id: id@,
                slots: Seq::<SlotView>::empty(),
                inserted: 0,
                collected: 0,
                operational: true,
                max_slots: max_slots as int,
            }) && machine_wf(m@)),
    {
        if max_slots == 0 {
            return Err(SodaMachineError::InvalidAmount);
        }
        let m = SodaMachine {
            id,
            slots: Vec::new(),
            inserted_money: Money::zero(),
            total_collected: Money::zero(),
            is_operational: true,
            max_slots,
        };
        proof {
            assert(m@.slots =~= Seq::<SlotView>::empty());
        }
        Ok(m)
    }

    /// The machine identifier.
    pub fn id(&self) -> (r: SodaMachineId)
        ensures
            r@ == self@.id,
    {
        self.id
    }

    /// The customer's current balance.
    pub fn inserted_money(&self) -> (r: Money)
        ensures
            r@ == self@.inserted,
    {
        self.inserted_money
    }

    /// The lifetime revenue.
    pub fn total_collected(&self) -> (r: Money)
        ensures
            r@ == self@.collected,
    {
        self.total_collected
    }

    /// Whether the machine accepts mutating operations.
    pub fn is_operational(&self) -> (r: bool)
        ensures
            r == self@.operational,
    {
        self.is_operational
    }

    /// How many slots the machine has.
    pub fn slot_count(&self) -> (r: usize)
        ensures
            r == self@.slots.len(),
    {
        self.slots.len()
    }

    /// The slot ceiling fixed at creation.
    pub fn max_slots(&self) -> (r: u32)
        ensures
            r == self@.max_slots,
    {
        self.max_slots
    }

    /// Finds the position of a slot by identifier.
    fn find_slot(&self, slot_id: SlotId) -> (r: Option<usize>)
        requires
            machine_wf(self@),
        ensures
            r matches Some(i) ==> i < self@.slots.len() && self@.slots[i as int].id == slot_id@
                && i as int == slot_index(self@.slots, slot_id@) && has_slot_id(
                self@.slots,
                slot_id@,
            ),
            r is None ==> !has_slot_id(self@.slots, slot_id@),
    {
        let n = self.slots.len();
        let mut i: usize = 0;
        while i < n
            invariant
                n == self@.slots.len(),
                i <= n,
                machine_wf(self@),
                forall|j: int| 0 <= j < i ==> (#[trigger] self@.slots[j]).id != slot_id@,
            decreases n - i,
        {
            if self.slots[i].id().value() == slot_id.value() {
                proof {
                    let k = slot_index(self@.slots, slot_id@);
                    assert(self@.slots[i as int].id == slot_id@);
                    assert(has_slot_id(self@.slots, slot_id@));
                    assert(0 <= k < self@.slots.len() && self@.slots[k].id == slot_id@);
                    assert(k == i as int);
                }
                return Some(i);
            }
            i = i + 1;
        }
        None
    }

    /// The slot with the given identifier, if present.
    pub fn get_slot(&self, slot_id: SlotId) -> (r: Option<&Slot>)
        requires
            machine_wf(self@),
        ensures
            r matches Some(s) ==> has_slot_id(self@.slots, slot_id@) && s@ == self@.slots[slot_index(
                self@.slots,
                slot_id@,
            )],
            r is None ==> !has_slot_id(self@.slots, slot_id@),
    {
        match self.find_slot(slot_id) {
            Some(i) => Some(&self.slots[i]),
            None => None,
        }
    }

    /// All slots, in the order they were added.
    pub fn get_all_slots(&self) -> (r: &Vec<Slot>)
        ensures
            r@.map_values(|s: Slot| s@) == self@.slots,
    {
        &self.slots
    }

    /// Accepts a positive amount into the customer's balance.
    pub fn insert_money(&mut self, amount: Money) -> (r: Result<
        SodaMachineEvent,
        SodaMachineError,
    >)
        requires
            machine_wf(old(self)@),
        ensures
            machine_wf(final(self)@),
            !old(self)@.operational ==> r == Err::<SodaMachineEvent, SodaMachineError>(
                SodaMachineError::MachineNotOperational,
            ) && final(self)@ == old(self)@,
            old(self)@.operational && amount@ <= 0 ==> r == Err::<
                SodaMachineEvent,
                SodaMachineError,
            >(SodaMachineError::InvalidAmount) && final(self)@ == old(self)@,
            old(self)@.operational && amount@ > 0 && old(self)@.inserted + amount@ > i64::MAX ==> r
                == Err::<SodaMachineEvent, SodaMachineError>(
                SodaMachineError::MoneyError(MoneyError::Overflow),
            ) && final(self)@ == old(self)@,
            old(self)@.operational && amount@ > 0 && old(self)@.inserted + amount@ <= i64::MAX ==> (
            r matches Ok(SodaMachineEvent::MoneyInserted { amount: a, total_inserted: t }) && a
                == amount && t@ == old(self)@.inserted + amount@ && final(self)@ == (MachineView {
                inserted: old(self)@.inserted + amount@,
                ..old(self)@
            })),
    {
        if !self.is_operational {
            return Err(SodaMachineError::MachineNotOperational);
        }
        if amount.is_negative() || amount.is_zero() {
            return Err(SodaMachineError::InvalidAmount);
        }
        match self.inserted_money.checked_add(amount) {
            Ok(total) => {
                self.inserted_money = total;
                Ok(SodaMachineEvent::MoneyInserted { amount, total_inserted: total })
            },
            Err(e) => Err(SodaMachineError::MoneyError(e)),
        }
    }

    /// Returns the whole balance to the customer; there must be one.
    pub fn return_money(&mut self) -> (r: Result<SodaMachineEvent, SodaMachineError>)
        requires
            machine_wf(old(self)@),
        ensures
            machine_wf(final(self)@),
            !old(self)@.operational ==> r == Err::<SodaMachineEvent, SodaMachineError>(
                SodaMachineError::MachineNotOperational,
            ) && final(self)@ == old(self)@,
            old(self)@.operational && old(self)@.inserted == 0 ==> r == Err::<
                SodaMachineEvent,
                SodaMachineError,
            >(SodaMachineError::InvalidAmount) && final(self)@ == old(self)@,
            old(self)@.operational && old(self)@.inserted != 0 ==> (r matches Ok(
                SodaMachineEvent::MoneyReturned { amount: a },
            ) && a@ == old(self)@.inserted && final(self)@ == (MachineView {
                inserted: 0,
                ..old(self)@
            })),
    {
        if !self.is_operational {
            return Err(SodaMachineError::MachineNotOperational);
        }
        if self.inserted_money.is_zero() {
            return Err(SodaMachineError::InvalidAmount);
        }
        let returned_amount = self.inserted_money;
        self.inserted_money = Money::zero();
        Ok(SodaMachineEvent::MoneyReturned { amount: returned_amount })
    }

    /// Returns part of the balance to the customer.
    pub fn return_change(&mut self, amount: Money) -> (r: Result<
        SodaMachineEvent,
        SodaMachineError,
    >)
        requires
            machine_wf(old(self)@),
        ensures
            machine_wf(final(self)@),
            !old(self)@.operational ==> r == Err::<SodaMachineEvent, SodaMachineError>(
                SodaMachineError::MachineNotOperational,
            ) && final(self)@ == old(self)@,
            old(self)@.operational && amount@ <= 0 ==> r == Err::<
                SodaMachineEvent,
                SodaMachineError,
            >(SodaMachineError::InvalidAmount) && final(self)@ == old(self)@,
            old(self)@.operational && amount@ > 0 && amount@ > old(self)@.inserted ==> (r matches
                Err(SodaMachineError::InsufficientFunds { required, available }) && required@
                == amount@ && available@ == old(self)@.inserted && final(self)@ == old(self)@),
            old(self)@.operational && 0 < amount@ <= old(self)@.inserted ==> (r matches Ok(
                SodaMachineEvent::ChangeReturned { amount: a },
            ) && a == amount && final(self)@ == (MachineView {
                inserted: old(self)@.inserted - amount@,
                ..old(self)@
            })),
    {
        if !self.is_operational {
            return Err(SodaMachineError::MachineNotOperational);
        }
        if amount.is_negative() || amount.is_zero() {
            return Err(SodaMachineError::InvalidAmount);
        }
        if amount.cents() > self.inserted_money.cents() {
            return Err(
                SodaMachineError::InsufficientFunds {
                    required: amount,
                    available: self.inserted_money,
                },
            );
        }
        match self.inserted_money.checked_sub(amount) {
            Ok(rest) => {
                self.inserted_money = rest;
                Ok(SodaMachineEvent::ChangeReturned { amount })
            },
            Err(e) => {
                proof {
                    assert(false);
                }
                Err(SodaMachineError::MoneyError(e))
            },
        }
    }

    /// Adds a new empty slot under a fresh identifier, respecting the
    /// slot ceiling.
    pub fn add_slot(&mut self, slot_id: SlotId, capacity: u32) -> (r: Result<
        SodaMachineEvent,
        SodaMachineError,
    >)
        requires
            machine_wf(old(self)@),
        ensures
            machine_wf(final(self)@),
            !old(self)@.operational ==> r == Err::<SodaMachineEvent, SodaMachineError>(
                SodaMachineError::MachineNotOperational,
            ) && final(self)@ == old(self)@,
            old(self)@.operational && old(self)@.slots.len() >= old(self)@.max_slots ==> r == Err::<
                SodaMachineEvent,
                SodaMachineError,
            >(SodaMachineError::TooManySlots) && final(self)@ == old(self)@,
            old(self)@.operational && old(self)@.slots.len() < old(self)@.max_slots && has_slot_id(
                old(self)@.slots,
                slot_id@,
            ) ==> r == Err::<SodaMachineEvent, SodaMachineError>(
                SodaMachineError::SlotAlreadyExists(slot_id),
            ) && final(self)@ == old(self)@,
            old(self)@.operational && old(self)@.slots.len() < old(self)@.max_slots && !has_slot_id(
                old(self)@.slots,
                slot_id@,
            ) && capacity == 0 ==> (r matches Err(SodaMachineError::SlotError(
                SlotError::InvalidCapacity(m),
            )) && m@ == "Capacity must be greater than 0"@) && final(self)@ == old(self)@,
            old(self)@.operational && old(self)@.slots.len() < old(self)@.max_slots && !has_slot_id(
                old(self)@.slots,
                slot_id@,
            ) && capacity > 0 ==> (r matches Ok(SodaMachineEvent::SlotConfigured {
                slot_id: sid,
                soda_type,
            }) && sid == slot_id && soda_type@ == (SodaView {
                name: "Empty"@,
                flavor: SodaFlavor::Cola,
                size: SodaSize::Medium,
                price: 0,
                is_diet: false,
                is_caffeinated: false,
            })) && final(self)@ == (MachineView {
                slots: old(self)@.slots.push(
                    SlotView {
                        id: slot_id@,
                        soda: None,
                        quantity: 0,
                        capacity: capacity as int,
                        enabled: true,
                    },
                ),
                ..old(self)@
            }),
    {
        if !self.is_operational {
            return Err(SodaMachineError::MachineNotOperational);
        }
        if self.slots.len() >= self.max_slots as usize {
            return Err(SodaMachineError::TooManySlots);
        }
        if self.find_slot(slot_id).is_some() {
            return Err(SodaMachineError::SlotAlreadyExists(slot_id));
        }
        let slot = match Slot::new(slot_id, capacity) {
            Ok(s) => s,
            Err(e) => {
                return Err(SodaMachineError::SlotError(e));
            },
        };
        self.slots.push(slot);
        proof {
            reveal_strlit("Empty");
            assert(self@.slots =~= old(self)@.slots.push(
                SlotView {
                    id: slot_id@,
                    soda: None,
                    quantity: 0,
                    capacity: capacity as int,
                    enabled: true,
                },
            ));
            assert(self@ =~= (MachineView {
                slots: old(self)@.slots.push(
                    SlotView {
                        id: slot_id@,
                        soda: None,
                        quantity: 0,
                        capacity: capacity as int,
                        enabled: true,
                    },
                ),
                ..old(self)@
            }));
        }
        let soda_type = Soda::from_parts(
            String::from_str("Empty"),
            SodaFlavor::Cola,
            SodaSize::Medium,
            Money::zero(),
            false,
            false,
        );
        Ok(SodaMachineEvent::SlotConfigured { slot_id, soda_type })
    }

    /// Binds a soda type to an existing, currently empty slot.
    pub fn configure_slot(&mut self, slot_id: SlotId, soda_type: Soda) -> (r: Result<
        SodaMachineEvent,
        SodaMachineError,
    >)
        requires
            machine_wf(old(self)@),
            soda_wf(soda_type@),
        ensures
            machine_wf(final(self)@),
            !old(self)@.operational ==> r == Err::<SodaMachineEvent, SodaMachineError>(
                SodaMachineError::MachineNotOperational,
            ) && final(self)@ == old(self)@,
            old(self)@.operational && !has_slot_id(old(self)@.slots, slot_id@) ==> r == Err::<
                SodaMachineEvent,
                SodaMachineError,
            >(SodaMachineError::SlotNotFound(slot_id)) && final(self)@ == old(self)@,
            old(self)@.operational && has_slot_id(old(self)@.slots, slot_id@) && old(self)@.slots[slot_index(
                old(self)@.slots,
                slot_id@,
            )].quantity > 0 ==> r == Err::<SodaMachineEvent, SodaMachineError>(
                SodaMachineError::SlotError(SlotError::SodaTypeMismatch),
            ) && final(self)@ == old(self)@,
            old(self)@.operational && has_slot_id(old(self)@.slots, slot_id@) && old(self)@.slots[slot_index(
                old(self)@.slots,
                slot_id@,
            )].quantity == 0 ==> (r matches Ok(SodaMachineEvent::SlotConfigured {
                slot_id: sid,
                soda_type: sd,
            }) && sid == slot_id && sd@ == soda_type@) && final(self)@ == (MachineView {
                slots: old(self)@.slots.update(
                    slot_index(old(self)@.slots, slot_id@),
                    SlotView {
                        soda: Some(soda_type@),
                        ..old(self)@.slots[slot_index(old(self)@.slots, slot_id@)]
                    },
                ),
                ..old(self)@
            }),
    {
        if !self.is_operational {
            return Err(SodaMachineError::MachineNotOperational);
        }
        let i = match self.find_slot(slot_id) {
            Some(i) => i,
            None => {
                return Err(SodaMachineError::SlotNotFound(slot_id));
            },
        };
        let mut sl = self.slots.remove(i);
        let res = sl.configure_soda_type(soda_type.clone());
        self.slots.insert(i, sl);
        match res {
            Ok(_) => {
                proof {
                    assert(self@.slots =~= old(self)@.slots.update(
                        i as int,
                        SlotView {
                            soda: Some(soda_type@),
                            ..old(self)@.slots[i as int]
                        },
                    ));
                    assert(self@ =~= (MachineView {
                        slots: old(self)@.slots.update(
                            i as int,
                            SlotView {
                                soda: Some(soda_type@),
                                ..old(self)@.slots[i as int]
                            },
                        ),
                        ..old(self)@
                    }));
                }
                Ok(SodaMachineEvent::SlotConfigured { slot_id, soda_type })
            },
            Err(e) => {
                proof {
                    assert(self@.slots =~= old(self)@.slots);
                    assert(self@ =~= old(self)@);
                }
                Err(SodaMachineError::SlotError(e))
            },
        }
    }

    /// Adds sodas to an existing slot; a request beyond the remaining
    /// space fills the slot and still reports `SlotFull`, with the
    /// partial state change kept.
    pub fn refill_slot(&mut self, slot_id: SlotId, quantity: u32) -> (r: Result<
        SodaMachineEvent,
        SodaMachineError,
    >)
        requires
            machine_wf(old(self)@),
        ensures
            machine_wf(final(self)@),
            !old(self)@.operational ==> r == Err::<SodaMachineEvent, SodaMachineError>(
                SodaMachineError::MachineNotOperational,
            ) && final(self)@ == old(self)@,
            old(self)@.operational && !has_slot_id(old(self)@.slots, slot_id@) ==> r == Err::<
                SodaMachineEvent,
                SodaMachineError,
            >(SodaMachineError::SlotNotFound(slot_id)) && final(self)@ == old(self)@,
            old(self)@.operational && has_slot_id(old(self)@.slots, slot_id@) ==> ({
                let sl = old(self)@.slots[slot_index(old(self)@.slots, slot_id@)];
                &&& !sl.enabled ==> r == Err::<SodaMachineEvent, SodaMachineError>(
                    SodaMachineError::SlotError(SlotError::SlotDisabled),
                ) && final(self)@ == old(self)@
                &&& sl.enabled && quantity == 0 ==> r == Ok::<SodaMachineEvent, SodaMachineError>(
                    SodaMachineEvent::SlotRefilled { slot_id, quantity_added: 0 },
                ) && final(self)@ == old(self)@
                &&& sl.enabled && quantity > 0 ==> ({
                    let space = sl.capacity - sl.quantity;
                    let added = if quantity <= space {
                        quantity as int
                    } else {
                        space
                    };
                    &&& final(self)@ == (MachineView {
                        slots: old(self)@.slots.update(
                            slot_index(old(self)@.slots, slot_id@),
                            SlotView { quantity: sl.quantity + added, ..sl },
                        ),
                        ..old(self)@
                    })
                    &&& (added < quantity ==> r == Err::<SodaMachineEvent, SodaMachineError>(
                        SodaMachineError::SlotError(SlotError::SlotFull),
                    ))
                    &&& (added == quantity ==> r == Ok::<SodaMachineEvent, SodaMachineError>(
                        SodaMachineEvent::SlotRefilled { slot_id, quantity_added: quantity },
                    ))
                })
            }),
    {
        if !self.is_operational {
            return Err(SodaMachineError::MachineNotOperational);
        }
        let i = match self.find_slot(slot_id) {
            Some(i) => i,
            None => {
                return Err(SodaMachineError::SlotNotFound(slot_id));
            },
        };
        let mut sl = self.slots.remove(i);
        let res = sl.add_sodas(quantity);
        self.slots.insert(i, sl);
        match res {
            Ok(added) => {
                proof {
                    if added == 0 {
                        assert(self@.slots =~= old(self)@.slots);
                    } else {
                        assert(self@.slots =~= old(self)@.slots.update(
                            i as int,
                            SlotView {
                                quantity: old(self)@.slots[i as int].quantity + added,
                                ..old(self)@.slots[i as int]
                            },
                        ));
                    }
                    assert(self@ =~= (MachineView { slots: self@.slots, ..old(self)@ }));
                }
                Ok(SodaMachineEvent::SlotRefilled { slot_id, quantity_added: added })
            },
            Err(e) => {
                proof {
                    if old(self)@.slots[i as int].enabled && quantity > 0 {
                        let sl0 = old(self)@.slots[i as int];
                        let space = sl0.capacity - sl0.quantity;
                        let added = if quantity <= space {
                            quantity as int
                        } else {
                            space
                        };
                        assert(self@.slots =~= old(self)@.slots.update(
                            i as int,
                            SlotView { quantity: sl0.quantity + added, ..sl0 },
                        ));
                    } else {
                        assert(self@.slots =~= old(self)@.slots);
                    }
                    assert(self@ =~= (MachineView { slots: self@.slots, ..old(self)@ }));
                }
                Err(SodaMachineError::SlotError(e))
            },
        }
    }

    /// The central transaction: checks the slot, checks the funds, then
    /// dispenses one soda and moves its price from the customer's
    /// balance into the collected total as one indivisible update. The
    /// collected total never decreases and the balance never goes
    /// negative.
    pub fn dispense_soda(&mut self, slot_id: SlotId) -> (r: Result<
        SodaMachineEvent,
        SodaMachineError,
    >)
        requires
            machine_wf(old(self)@),
        ensures
            machine_wf(final(self)@),
            final(self)@.collected >= old(self)@.collected,
            final(self)@.inserted >= 0,
            !old(self)@.operational ==> r == Err::<SodaMachineEvent, SodaMachineError>(
                SodaMachineError::MachineNotOperational,
            ) && final(self)@ == old(self)@,
            old(self)@.operational && !has_slot_id(old(self)@.slots, slot_id@) ==> r == Err::<
                SodaMachineEvent,
                SodaMachineError,
            >(SodaMachineError::SlotNotFound(slot_id)) && final(self)@ == old(self)@,
            old(self)@.operational && has_slot_id(old(self)@.slots, slot_id@) ==> ({
                let sl = old(self)@.slots[slot_index(old(self)@.slots, slot_id@)];
                &&& sl.soda is None ==> r == Err::<SodaMachineEvent, SodaMachineError>(
                    SodaMachineError::SlotError(SlotError::SlotEmpty),
                ) && final(self)@ == old(self)@
                &&& sl.soda matches Some(sd) ==> ({
                    &&& !(sl.enabled && sl.quantity > 0) ==> r == Err::<
                        SodaMachineEvent,
                        SodaMachineError,
                    >(SodaMachineError::SlotError(SlotError::SlotEmpty)) && final(self)@ == old(self)@
                    &&& sl.enabled && sl.quantity > 0 && old(self)@.inserted < sd.price ==> (r
                        matches Err(SodaMachineError::InsufficientFunds { required, available })
                        && required@ == sd.price && available@ == old(self)@.inserted) && final(self)@ == old(self)@
                    &&& sl.enabled && sl.quantity > 0 && old(self)@.inserted >= sd.price ==> ({
                        let dispensed_slots = old(self)@.slots.update(
                            slot_index(old(self)@.slots, slot_id@),
                            SlotView { quantity: sl.quantity - 1, ..sl },
                        );
                        if old(self)@.collected + sd.price > i64::MAX {
                            r == Err::<SodaMachineEvent, SodaMachineError>(
                                SodaMachineError::MoneyError(MoneyError::Overflow),
                            ) && final(self)@ == (MachineView {
                                slots: dispensed_slots,
                                ..old(self)@
                            })
                        } else {
                            (r matches Ok(SodaMachineEvent::SodaDispensed { slot_id: sid, soda })
                                && sid == slot_id && soda@ == sd) && final(self)@ == (MachineView {
                                slots: dispensed_slots,
                                inserted: old(self)@.inserted - sd.price,
                                collected: old(self)@.collected + sd.price,
                                ..old(self)@
                            })
                        }
                    })
                })
            }),
    {
        if !self.is_operational {
            return Err(SodaMachineError::MachineNotOperational);
        }
        let i = match self.find_slot(slot_id) {
            Some(i) => i,
            None => {
                return Err(SodaMachineError::SlotNotFound(slot_id));
            },
        };
        let price = match self.slots[i].soda_type() {
            Some(s) => s.price(),
            None => {
                return Err(SodaMachineError::SlotError(SlotError::SlotEmpty));
            },
        };
        if !(self.slots[i].is_enabled() && self.slots[i].quantity() > 0) {
            return Err(SodaMachineError::SlotError(SlotError::SlotEmpty));
        }
        if self.inserted_money.cents() < price.cents() {
            return Err(
                SodaMachineError::InsufficientFunds {
                    required: price,
                    available: self.inserted_money,
                },
            );
        }
        let mut sl = self.slots.remove(i);
        let dispensed_soda = match sl.dispense_soda() {
            Ok(s) => s,
            Err(_) => {
                proof {
                    assert(false);
                }
                self.slots.insert(i, sl);
                return Err(SodaMachineError::SlotError(SlotError::SlotEmpty));
            },
        };
        self.slots.insert(i, sl);
        proof {
            assert(self@.slots =~= old(self)@.slots.update(
                i as int,
                SlotView {
                    quantity: old(self)@.slots[i as int].quantity - 1,
                    ..old(self)@.slots[i as int]
                },
            ));
        }
        let change = match self.inserted_money.checked_sub(dispensed_soda.price()) {
            Ok(c) => c,
            Err(e) => {
                proof {
                    assert(false);
                }
                return Err(SodaMachineError::MoneyError(e));
            },
        };
        let new_collected = match self.total_collected.checked_add(dispensed_soda.price()) {
            Ok(c) => c,
            Err(e) => {
                proof {
                    assert(self@ =~= (MachineView { slots: self@.slots, ..old(self)@ }));
                }
                return Err(SodaMachineError::MoneyError(e));
            },
        };
        self.total_collected = new_collected;
        self.inserted_money = change;
        proof {
            assert(self@ =~= (MachineView {
                slots: self@.slots,
                inserted: self@.inserted,
                collected: self@.collected,
                ..old(self)@
            }));
        }
        Ok(SodaMachineEvent::SodaDispensed { slot_id, soda: dispensed_soda })
    }

    /// Puts the machine into service; always succeeds.
    pub fn enable(&mut self) -> (r: SodaMachineEvent)
        ensures
            final(self)@ == (MachineView { operational: true, ..old(self)@ }),
            r == SodaMachineEvent::MachineEnabled,
    {
        self.is_operational = true;
        SodaMachineEvent::MachineEnabled
    }

    /// Takes the machine out of service; always succeeds, and every
    /// other mutating operation fails until `enable` is called.
    pub fn disable(&mut self) -> (r: SodaMachineEvent)
        ensures
            final(self)@ == (MachineView { operational: false, ..old(self)@ }),
            r == SodaMachineEvent::MachineDisabled,
    {
        self.is_operational = false;
        SodaMachineEvent::MachineDisabled
    }

    /// The total number of sodas across all slots.
    pub fn total_soda_count(&self) -> (r: u32)
        requires
            machine_wf(self@),
            qty_sum(self@.slots) <= u32::MAX,
        ensures
            r == qty_sum(self@.slots),
    {
        let ghost slots = self@.slots;
        let n = self.slots.len();
        let mut total: u32 = 0;
        let mut i: usize = 0;
        while i < n
            invariant
                n == slots.len(),
                i <= n,
                slots == self@.slots,
                machine_wf(self@),
                qty_sum(slots) <= u32::MAX,
                total == qty_sum(slots.take(i as int)),
            decreases n - i,
        {
            proof {
                lemma_qty_sum_step(slots, i as int);
                lemma_qty_sum_take_le(slots, i as int + 1);
            }
            total = total + self.slots[i].quantity();
            i = i + 1;
        }
        proof {
            assert(slots.take(n as int) =~= slots);
        }
        total
    }

    /// The total value of all stock, folded left over the slots: a slot
    /// without a bound soda or whose own value overflows contributes
    /// nothing, and an overflowing addition resets the running total to
    /// zero, as `inv_value` describes.
    pub fn total_inventory_value(&self) -> (r: Money)
        ensures
            r@ == inv_value(self@.slots),
    {
        let ghost slots = self@.slots;
        let n = self.slots.len();
        let mut acc = Money::zero();
        let mut i: usize = 0;
        while i < n
            invariant
                n == slots.len(),
                i <= n,
                slots == self@.slots,
                acc@ == inv_value(slots.take(i as int)),
            decreases n - i,
        {
            proof {
                assert(slots.take(i as int + 1).drop_last() =~= slots.take(i as int));
                assert(slots.take(i as int + 1).last() == slots[i as int]);
            }
            match self.slots[i].total_value() {
                Some(v) => {
                    acc = match acc.checked_add(v) {
                        Ok(sum) => sum,
                        Err(_) => Money::zero(),
                    };
                },
                None => {},
            }
            i = i + 1;
        }
        proof {
            assert(slots.take(n as int) =~= slots);
        }
        acc
    }

    /// The slots currently able to dispense, each paired with its bound
    /// soda, in the order the slots were added.
    pub fn get_available_sodas<'a>(&'a self) -> (r: Vec<(SlotId, &'a Soda)>)
        ensures
            r@.map_values(|p: (SlotId, &Soda)| (p.0@, p.1@)) == available_of(self@.slots),
    {
        let ghost slots = self@.slots;
        let n = self.slots.len();
        let mut r: Vec<(SlotId, &'a Soda)> = Vec::new();
        let mut i: usize = 0;
        proof {
            assert(r@.map_values(|p: (SlotId, &Soda)| (p.0@, p.1@)) =~= available_of(
                slots.take(0),
            ));
        }
        while i < n
            invariant
                n == slots.len(),
                i <= n,
                slots == self@.slots,
                r@.map_values(|p: (SlotId, &Soda)| (p.0@, p.1@)) == available_of(
                    slots.take(i as int),
                ),
            decreases n - i,
        {
            proof {
                assert(slots.take(i as int + 1).drop_last() =~= slots.take(i as int));
                assert(slots.take(i as int + 1).last() == slots[i as int]);
            }
            let sl = &self.slots[i];
            match sl.soda_type() {
                Some(soda) => {
                    if sl.can_dispense(soda) {
                        r.push((sl.id(), soda));
                        proof {
                            assert(r@.map_values(|p: (SlotId, &Soda)| (p.0@, p.1@)) =~= available_of(
                                slots.take(i as int + 1),
                            ));
                        }
                    } else {
                        proof {
                            assert(available_of(slots.take(i as int + 1)) =~= available_of(
                                slots.take(i as int),
                            ));
                        }
                    }
                },
                None => {
                    proof {
                        assert(available_of(slots.take(i as int + 1)) =~= available_of(
                            slots.take(i as int),
                        ));
                    }
                },
            }
            i = i + 1;
        }
        proof {
            assert(slots.take(n as int) =~= slots);
        }
        r
    }

    /// The first slot able to dispense a soda of the same type as the
    /// given one, if any.
    pub fn find_available_soda(&self, soda: &Soda) -> (r: Option<SlotId>)
        ensures
            r matches Some(sid) ==> exists|i: int|
                0 <= i < self@.slots.len() && (#[trigger] self@.slots[i]).id == sid@
                    && can_dispense_view(self@.slots[i], soda@),
            r is None ==> forall|i: int|
                0 <= i < self@.slots.len() ==> !can_dispense_view(
                    #[trigger] self@.slots[i],
                    soda@,
                ),
    {
        let n = self.slots.len();
        let mut i: usize = 0;
        while i < n
            invariant
                n == self@.slots.len(),
                i <= n,
                forall|j: int|
                    0 <= j < i ==> !can_dispense_view(#[trigger] self@.slots[j], soda@),
            decreases n - i,
        {
            let sl = &self.slots[i];
            if sl.can_dispense(soda) {
                proof {
                    assert(sl@ == self@.slots[i as int]);
                    assert(can_dispense_view(self@.slots[i as int], soda@));
                }
                return Some(sl.id());
            }
            i = i + 1;
        }
        None
    }

    /// A one-line summary of the machine's state, as `status_string`
    /// describes it.
    pub fn status_summary(&self) -> (s: String)
        requires
            machine_wf(self@),
            qty_sum(self@.slots) <= u32::MAX,
        ensures
            s@ == status_string(self@),
    {
        let available = self.get_available_sodas();
        let mut s = String::from_str("Machine ");
        let ids = u32_to_string(self.id.value());
        s.append(ids.as_str());
        s.append(": ");
        let ns = usize_to_string(self.slots.len());
        s.append(ns.as_str());
        s.append(" slots, ");
        let avs = usize_to_string(available.len());
        s.append(avs.as_str());
        s.append(" available sodas (");
        let ts = u32_to_string(self.total_soda_count());
        s.append(ts.as_str());
        s.append(" total), ");
        let ivs = self.total_inventory_value().to_string();
        s.append(ivs.as_str());
        s.append(" inventory value, ");
        let ims = self.inserted_money.to_string();
        s.append(ims.as_str());
        s.append(" inserted, ");
        let tcs = self.total_collected.to_string();
        s.append(tcs.as_str());
        s.append(" collected - ");
        if self.is_operational {
            s.append("Operational");
        } else {
            s.append("Out of Service");
        }
        proof {
            assert(available@.map_values(|p: (SlotId, &Soda)| (p.0@, p.1@)).len() == available_of(
                self@.slots,
            ).len());
            assert(s@ =~= status_string(self@));
        }
        s
    }
}

/// The total quantity held across a sequence of slots.
pub open spec fn qty_sum(s: Seq<SlotView>) -> int
    decreases s.len(),
{
    if s.len() == 0 {
        0
    } else {
        qty_sum(s.drop_last()) + s.last().quantity
    }
}

proof fn lemma_qty_sum_step(s: Seq<SlotView>, i: int)
    requires
        0 <= i < s.len(),
    ensures
        qty_sum(s.take(i + 1)) == qty_sum(s.take(i)) + s[i].quantity,
{
    assert(s.take(i + 1).drop_last() =~= s.take(i));
    assert(s.take(i + 1).last() == s[i]);
}

proof fn lemma_qty_sum_take_le(s: Seq<SlotView>, j: int)
    requires
        0 <= j <= s.len(),
        forall|i: int| 0 <= i < s.len() ==> (#[trigger] s[i]).quantity >= 0,
    ensures
        qty_sum(s.take(j)) <= qty_sum(s),
    decreases s.len() - j,
{
    if j < s.len() {
        lemma_qty_sum_step(s, j);
        lemma_qty_sum_take_le(s, j + 1);
    } else {
        assert(s.take(j) =~= s);
    }
}

/// The fold `total_inventory_value` computes: each slot's value added
/// left to right, a valueless slot skipped, and an overflowing addition
/// resetting the running total to zero.
pub open spec fn inv_value(s: Seq<SlotView>) -> int
    decreases s.len(),
{
    if s.len() == 0 {
        0
    } else {
        let acc = inv_value(s.drop_last());
        match slot_value(s.last()) {
            None => acc,
            Some(v) => if i64::MIN <= acc + v <= i64::MAX {
                acc + v
            } else {
                0
            },
        }
    }
}

/// The slots able to dispense their own bound soda, paired with it, in
/// sequence order.
pub open spec fn available_of(s: Seq<SlotView>) -> Seq<(u32, SodaView)>
    decreases s.len(),
{
    if s.len() == 0 {
        Seq::empty()
    } else {
        let rest = available_of(s.drop_last());
        let l = s.last();
        match l.soda {
            Some(sd) => if l.enabled && l.quantity > 0 {
                rest + seq![(l.id, sd)]
            } else {
                rest
            },
            None => rest,
        }
    }
}

/// The rendering `status_summary` produces.
pub open spec fn status_string(v: MachineView) -> Seq<char> {
    "Machine "@ + dec_digits(v.id as nat) + ": "@ + dec_digits(v.slots.len()) + " slots, "@
        + dec_digits(available_of(v.slots).len()) + " available sodas ("@ + dec_digits(
        qty_sum(v.slots) as nat,
    ) + " total), "@ + money_string(inv_value(v.slots)) + " inventory value, "@ + money_string(
        v.inserted,
    ) + " inserted, "@ + money_string(v.collected) + " collected - "@ + (if v.operational {
        "Operational"@
    } else {
        "Out of Service"@
    })
}

} // verus!
