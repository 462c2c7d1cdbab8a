//! A capacity-bounded slot of the machine: bound to at most one soda
//! type, tracking its current quantity and an enabled flag.

use vstd::prelude::*;
use vstd::string::*;

use crate::money::Money;
use crate::numfmt::dec_digits;
use crate::numfmt::u32_to_string;
use crate::soda::soda_wf;
use crate::soda::same_type;
use crate::soda::Soda;
use crate::soda::SodaView;

verus! {

/// Identifier of a slot, unique within one machine.
#[derive(Debug, Clone, Copy, PartialEq, Eq, Hash, PartialOrd, Ord, Structural)]
pub struct SlotId(u32);

impl View for SlotId {
    type V = u32;

    closed spec fn view(&self) -> u32 {
        self.0
    }
}

impl SlotId {
    /// Wraps a numeric identifier.
    pub fn new(id: u32) -> (r: SlotId)
        ensures
            r@ == id,
    {
        SlotId(id)
    }

    /// The numeric identifier.
    pub fn value(&self) -> (r: u32)
        ensures
            r == self@,
    {
        self.0
    }
}

/// Errors from slot operations.
#[derive(Debug, Clone, PartialEq, Eq)]
pub enum SlotError {
    InvalidQuantity(String),
    InvalidCapacity(String),
    SlotEmpty,
    SlotFull,
    SlotDisabled,
    SodaTypeMismatch,
    InsufficientQuantity,
    InvalidSlotId,
}

/// The message each slot error renders to.
pub open spec fn slot_error_string(e: SlotError) -> Seq<char> {
    match e {
        SlotError::InvalidQuantity(msg) => "Invalid quantity: "@ + msg@,
        SlotError::InvalidCapacity(msg) => "Invalid capacity: "@ + msg@,
        SlotError::SlotEmpty => "Slot is empty"@,
        SlotError::SlotFull => "Slot is full"@,
        SlotError::SlotDisabled => "Slot is disabled"@,
        SlotError::SodaTypeMismatch => "Soda type mismatch"@,
        SlotError::InsufficientQuantity => "Insufficient quantity"@,
        SlotError::InvalidSlotId => "Invalid slot ID"@,
    }
}

impl SlotError {
    /// The human-readable message for this error.
    pub fn to_string(&self) -> (s: String)
        ensures
            s@ == slot_error_string(*self),
    {
        match self {
            SlotError::InvalidQuantity(msg) => {
                let mut s = String::from_str("Invalid quantity: ");
                s.append(msg.as_str());
                s
            },
            SlotError::InvalidCapacity(msg) => {
                let mut s = String::from_str("Invalid capacity: ");
                s.append(msg.as_str());
                s
            },
            SlotError::SlotEmpty => String::from_str("Slot is empty"),
            SlotError::SlotFull => String::from_str("Slot is full"),
            SlotError::SlotDisabled => String::from_str("Slot is disabled"),
            SlotError::SodaTypeMismatch => String::from_str("Soda type mismatch"),
            SlotError::InsufficientQuantity => String::from_str("Insufficient quantity"),
            SlotError::InvalidSlotId => String::from_str("Invalid slot ID"),
        }
    }
}

/// The mathematical content of a slot.
#[verifier::ext_equal]
pub ghost struct SlotView {
    pub id: u32,
    pub soda: Option<SodaView>,
    pub quantity: int,
    pub capacity: int,
    pub enabled: bool,
}

/// A validly constructed slot: positive capacity, quantity within it,
/// and a valid soda wherever one is bound.
pub open spec fn slot_wf(v: SlotView) -> bool {
    &&& v.capacity > 0
    &&& 0 <= v.quantity <= v.capacity
    &&& (v.soda matches Some(s) ==> soda_wf(s))
}

/// Whether a slot can serve a request for the given soda: enabled,
/// stocked, and bound to the same soda type.
pub open spec fn can_dispense_view(v: SlotView, want: SodaView) -> bool {
    &&& v.enabled
    &&& v.quantity > 0
    &&& (v.soda matches Some(b) && same_type(b, want))
}

/// The total value of a slot's stock: the bound price times the
/// quantity, `None` when nothing is bound or the product leaves the
/// representable range.
pub open spec fn slot_value(v: SlotView) -> Option<int> {
    match v.soda {
        None => None,
        Some(s) => if v.quantity > 0 {
            if i64::MIN <= s.price * v.quantity <= i64::MAX {
                Some(s.price * v.quantity)
            } else {
                None
            }
        } else {
            Some(0int)
        },
    }
}

/// A slot holding sodas of one bound type.
#[derive(Debug, Clone, PartialEq, Eq)]
pub struct Slot {
    id: SlotId,
    soda_type: Option<Soda>,
    quantity: u32,
    max_capacity: u32,
    is_enabled: bool,
}

impl View for Slot {
    type V = SlotView;

    closed spec fn view(&self) -> SlotView {
        SlotView {
            id: self.id@,
            soda: match self.soda_type {
                Some(s) => Some(s@),
                None => None,
            },
            quantity: self.quantity as int,
            capacity: self.max_capacity as int,
            enabled: self.is_enabled,
        }
    }
}

impl Slot {
    /// Creates an empty, enabled slot; rejects a zero capacity.
    pub fn new(id: SlotId, max_capacity: u32) -> (r: Result<Slot, SlotError>)
        ensures
            max_capacity == 0 ==> (r matches Err(SlotError::InvalidCapacity(m)) && m@
                == "Capacity must be greater than 0"@),
            max_capacity > 0 ==> (r matches Ok(s) && s@ == (SlotView {
                id: id@,
                soda: None,
                quantity: 0,
                capacity: max_capacity as int,
                enabled: true,
            }) && slot_wf(s@)),
    {
        if max_capacity == 0 {
            return Err(SlotError::InvalidCapacity("Capacity must be greater than 0".to_owned()));
        }
        Ok(Slot { id, soda_type: None, quantity: 0, max_capacity, is_enabled: true })
    }

    /// Creates an enabled slot already bound and stocked; rejects a zero
    /// capacity or a quantity beyond it.
    pub fn new_with_soda(id: SlotId, soda_type: Soda, quantity: u32, max_capacity: u32) -> (r:
        Result<Slot, SlotError>)
        requires
            soda_wf(soda_type@),
        ensures
            max_capacity == 0 ==> (r matches Err(SlotError::InvalidCapacity(m)) && m@
                == "Capacity must be greater than 0"@),
            max_capacity > 0 && quantity > max_capacity ==> (r matches Err(
                SlotError::InvalidQuantity(m),
            ) && m@ == "Quantity cannot exceed capacity"@),
            max_capacity > 0 && quantity <= max_capacity ==> (r matches Ok(s) && s@ == (SlotView {
                id: id@,
                soda: Some(soda_type@),
                quantity: quantity as int,
                capacity: max_capacity as int,
                enabled: true,
            }) && slot_wf(s@)),
    {
        if max_capacity == 0 {
            return Err(SlotError::InvalidCapacity("Capacity must be greater than 0".to_owned()));
        }
        if quantity > max_capacity {
            return Err(SlotError::InvalidQuantity("Quantity cannot exceed capacity".to_owned()));
        }
        Ok(Slot { id, soda_type: Some(soda_type), quantity, max_capacity, is_enabled: true })
    }

    /// The slot identifier.
    pub fn id(&self) -> (r: SlotId)
        ensures
            r@ == self@.id,
    {
        self.id
    }

    /// The bound soda type, if any.
    pub fn soda_type(&self) -> (r: Option<&Soda>)
        ensures
            self@.soda matches Some(v) ==> (r matches Some(s) && s@ == v),
            self@.soda is None ==> r is None,
    {
        self.soda_type.as_ref()
    }

    /// The current quantity.
    pub fn quantity(&self) -> (r: u32)
        ensures
            r == self@.quantity,
    {
        self.quantity
    }

    /// The maximum capacity.
    pub fn max_capacity(&self) -> (r: u32)
        ensures
            r == self@.capacity,
    {
        self.max_capacity
    }

    /// Whether the slot is enabled.
    pub fn is_enabled(&self) -> (r: bool)
        ensures
            r == self@.enabled,
    {
        self.is_enabled
    }

    /// Whether the slot holds no sodas.
    pub fn is_empty(&self) -> (r: bool)
        ensures
            r == (self@.quantity == 0),
    {
        self.quantity == 0
    }

    /// Whether the slot is at capacity.
    pub fn is_full(&self) -> (r: bool)
        ensures
            r == (self@.quantity >= self@.capacity),
    {
        self.quantity >= self.max_capacity
    }

    /// How many more sodas fit.
    pub fn remaining_capacity(&self) -> (r: u32)
        ensures
            r == if self@.quantity <= self@.capacity {
                self@.capacity - self@.quantity
            } else {
                0
            },
    {
        if self.quantity <= self.max_capacity {
            self.max_capacity - self.quantity
        } else {
            0
        }
    }

    /// Binds a soda type; only an empty slot may be (re)bound.
    pub fn configure_soda_type(&mut self, soda_type: Soda) -> (r: Result<(), SlotError>)
        requires
            soda_wf(soda_type@),
        ensures
            old(self)@.quantity > 0 ==> r == Err::<(), SlotError>(SlotError::SodaTypeMismatch)
                && *final(self) == *old(self),
            old(self)@.quantity == 0 ==> r == Ok::<(), SlotError>(()) && final(self)@ == (SlotView {
                soda: Some(soda_type@),
                ..old(self)@
            }),
    {
        if self.quantity > 0 {
            return Err(SlotError::SodaTypeMismatch);
        }
        self.soda_type = Some(soda_type);
        Ok(())
    }

    /// Adds sodas up to the remaining capacity. When the request exceeds
    /// the space, the slot fills to capacity and the call still reports
    /// `SlotFull`: a partial success whose state change persists.
    pub fn add_sodas(&mut self, count: u32) -> (r: Result<u32, SlotError>)
        requires
            slot_wf(old(self)@),
        ensures
            slot_wf(final(self)@),
            !old(self)@.enabled ==> r == Err::<u32, SlotError>(SlotError::SlotDisabled) && *final(self)
                == *old(self),
            old(self)@.enabled && count == 0 ==> r == Ok::<u32, SlotError>(0) && *final(self) == *old(
                self,
            ),
            old(self)@.enabled && count > 0 ==> ({
                let space = old(self)@.capacity - old(self)@.quantity;
                let added = if count <= space {
                    count as int
                } else {
                    space
                };
                &&& final(self)@ == (SlotView { quantity: old(self)@.quantity + added, ..old(self)@ })
                &&& (added < count ==> r == Err::<u32, SlotError>(SlotError::SlotFull))
                &&& (added == count ==> r == Ok::<u32, SlotError>(count))
            }),
    {
        if !self.is_enabled {
            return Err(SlotError::SlotDisabled);
        }
        if count == 0 {
            return Ok(0);
        }
        let available_space = self.max_capacity - self.quantity;
        let actual_added = if count <= available_space {
            count
        } else {
            available_space
        };
        self.quantity = self.quantity + actual_added;
        if actual_added < count {
            Err(SlotError::SlotFull)
        } else {
            Ok(actual_added)
        }
    }

    /// Removes up to `count` sodas and reports how many actually left.
    pub fn remove_sodas(&mut self, count: u32) -> (r: Result<u32, SlotError>)
        requires
            slot_wf(old(self)@),
        ensures
            slot_wf(final(self)@),
            !old(self)@.enabled ==> r == Err::<u32, SlotError>(SlotError::SlotDisabled) && *final(self)
                == *old(self),
            old(self)@.enabled && count == 0 ==> r == Ok::<u32, SlotError>(0) && *final(self) == *old(
                self,
            ),
            old(self)@.enabled && count > 0 && old(self)@.quantity == 0 ==> r == Err::<
                u32,
                SlotError,
            >(SlotError::SlotEmpty) && *final(self) == *old(self),
            old(self)@.enabled && count > 0 && old(self)@.quantity > 0 ==> ({
                let removed = if count <= old(self)@.quantity {
                    count as int
                } else {
                    old(self)@.quantity
                };
                &&& final(self)@ == (SlotView { quantity: old(self)@.quantity - removed, ..old(self)@ })
                &&& r matches Ok(n) && n == removed
            }),
    {
        if !self.is_enabled {
            return Err(SlotError::SlotDisabled);
        }
        if count == 0 {
            return Ok(0);
        }
        if self.quantity == 0 {
            return Err(SlotError::SlotEmpty);
        }
        let actual_removed = if count <= self.quantity {
            count
        } else {
            self.quantity
        };
        self.quantity = self.quantity - actual_removed;
        Ok(actual_removed)
    }

    /// Hands out one soda of the bound type and decrements the stock.
    pub fn dispense_soda(&mut self) -> (r: Result<Soda, SlotError>)
        requires
            slot_wf(old(self)@),
            old(self)@.quantity > 0 ==> old(self)@.soda is Some,
        ensures
            slot_wf(final(self)@),
            !old(self)@.enabled ==> r == Err::<Soda, SlotError>(SlotError::SlotDisabled) && *final(self)
                == *old(self),
            old(self)@.enabled && old(self)@.quantity == 0 ==> r == Err::<Soda, SlotError>(
                SlotError::SlotEmpty,
            ) && *final(self) == *old(self),
            old(self)@.enabled && old(self)@.quantity > 0 ==> ({
                &&& final(self)@ == (SlotView { quantity: old(self)@.quantity - 1, ..old(self)@ })
                &&& r matches Ok(s) && old(self)@.soda == Some(s@)
            }),
    {
        if !self.is_enabled {
            return Err(SlotError::SlotDisabled);
        }
        if self.quantity == 0 {
            return Err(SlotError::SlotEmpty);
        }
        self.quantity = self.quantity - 1;
        match &self.soda_type {
            Some(s) => Ok(s.clone()),
            None => {
                proof {
                    assert(false);
                }
                Err(SlotError::SlotEmpty)
            },
        }
    }

    /// Enables the slot.
    pub fn enable(&mut self)
        ensures
            final(self)@ == (SlotView { enabled: true, ..old(self)@ }),
    {
        self.is_enabled = true;
    }

    /// Disables the slot.
    pub fn disable(&mut self)
        ensures
            final(self)@ == (SlotView { enabled: false, ..old(self)@ }),
    {
        self.is_enabled = false;
    }

    /// Changes the capacity; it may never drop to zero or below the
    /// current quantity.
    pub fn set_capacity(&mut self, new_capacity: u32) -> (r: Result<(), SlotError>)
        ensures
            new_capacity == 0 ==> (r matches Err(SlotError::InvalidCapacity(m)) && m@
                == "Capacity must be greater than 0"@ && *final(self) == *old(self)),
            new_capacity > 0 && old(self)@.quantity > new_capacity ==> (r matches Err(
                SlotError::InvalidCapacity(m),
            ) && m@ == "Cannot reduce capacity below current quantity"@ && *final(self) == *old(self)),
            new_capacity > 0 && old(self)@.quantity <= new_capacity ==> r == Ok::<(), SlotError>(())
                && final(self)@ == (SlotView { capacity: new_capacity as int, ..old(self)@ }),
    {
        if new_capacity == 0 {
            return Err(SlotError::InvalidCapacity("Capacity must be greater than 0".to_owned()));
        }
        if self.quantity > new_capacity {
            return Err(
                SlotError::InvalidCapacity(
                    "Cannot reduce capacity below current quantity".to_owned(),
                ),
            );
        }
        self.max_capacity = new_capacity;
        Ok(())
    }

    /// The total value of the stock, as `slot_value` describes it.
    pub fn total_value(&self) -> (r: Option<Money>)
        ensures
            r matches Some(m) ==> slot_value(self@) == Some(m@),
            r is None ==> slot_value(self@) is None,
    {
        match &self.soda_type {
            Some(st) => {
                if self.quantity > 0 {
                    match st.price().checked_mul(self.quantity as i64) {
                        Ok(total) => Some(total),
                        Err(_) => None,
                    }
                } else {
                    Some(Money::zero())
                }
            },
            None => None,
        }
    }

    /// Whether this slot can serve a request for the given soda.
    pub fn can_dispense(&self, soda: &Soda) -> (r: bool)
        ensures
            r == can_dispense_view(self@, soda@),
    {
        self.is_enabled && self.quantity > 0 && match &self.soda_type {
            Some(bound) => bound.is_same_type(soda),
            None => false,
        }
    }

    /// A one-line rendering such as "Slot 1: Cola (5 of 20) - Enabled".
    pub fn to_string(&self) -> (s: String)
        ensures
            s@ == slot_string(self@),
    {
        let mut s = String::from_str("Slot ");
        let ids = u32_to_string(self.id.value());
        s.append(ids.as_str());
        s.append(": ");
        match &self.soda_type {
            Some(bound) => s.append(bound.name()),
            None => s.append("Empty"),
        }
        s.append(" (");
        let qs = u32_to_string(self.quantity);
        s.append(qs.as_str());
        s.append(" of ");
        let cs = u32_to_string(self.max_capacity);
        s.append(cs.as_str());
        s.append(") - ");
        if self.is_enabled {
            s.append("Enabled");
        } else {
            s.append("Disabled");
        }
        proof {
            assert(s@ =~= slot_string(self@));
        }
        s
    }
}

/// The rendering `Slot::to_string` produces.
pub open spec fn slot_string(v: SlotView) -> Seq<char> {
    "Slot "@ + dec_digits(v.id as nat) + ": "@ + (match v.soda {
        Some(s) => s.name,
        None => "Empty"@,
    }) + " ("@ + dec_digits(v.quantity as nat) + " of "@ + dec_digits(v.capacity as nat) + ") - "@
        + (if v.enabled {
        "Enabled"@
    } else {
        "Disabled"@
    })
}

} // verus!
