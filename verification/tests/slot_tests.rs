use soda_core::money::Money;
use soda_core::slot::Slot;
use soda_core::slot::SlotError;
use soda_core::slot::SlotId;
use soda_core::soda::Soda;
use soda_core::soda::SodaFlavor;
use soda_core::soda::SodaSize;

fn create_test_soda() -> Soda {
    Soda::new(
        "Coca-Cola".to_string(),
        SodaFlavor::Cola,
        SodaSize::Medium,
        Money::from_dollars_cents(1, 50).unwrap(),
        false,
        true,
    )
    .unwrap()
}

#[test]
fn test_slot_creation() {
    let slot = Slot::new(SlotId::new(1), 20).unwrap();

    assert_eq!(slot.id().value(), 1);
    assert_eq!(slot.quantity(), 0);
    assert_eq!(slot.max_capacity(), 20);
    assert!(slot.is_enabled());
    assert!(slot.is_empty());
    assert!(!slot.is_full());
    assert_eq!(slot.remaining_capacity(), 20);
}

#[test]
fn test_slot_creation_with_soda() {
    let soda = create_test_soda();
    let slot = Slot::new_with_soda(SlotId::new(1), soda.clone(), 10, 20).unwrap();

    assert_eq!(slot.id().value(), 1);
    assert_eq!(slot.quantity(), 10);
    assert_eq!(slot.max_capacity(), 20);
    assert!(slot.soda_type().is_some());
    assert_eq!(slot.soda_type().unwrap().name(), "Coca-Cola");
    assert!(!slot.is_empty());
    assert!(!slot.is_full());
    assert_eq!(slot.remaining_capacity(), 10);
}

#[test]
fn test_slot_creation_zero_capacity() {
    let result = Slot::new(SlotId::new(1), 0);
    assert!(result.is_err());
    assert_eq!(
        result.unwrap_err(),
        SlotError::InvalidCapacity("Capacity must be greater than 0".to_string())
    );
}

#[test]
fn test_slot_creation_quantity_exceeds_capacity() {
    let soda = create_test_soda();
    let result = Slot::new_with_soda(SlotId::new(1), soda, 25, 20);
    assert!(result.is_err());
    assert_eq!(
        result.unwrap_err(),
        SlotError::InvalidQuantity("Quantity cannot exceed capacity".to_string())
    );
}

#[test]
fn test_configure_soda_type() {
    let mut slot = Slot::new(SlotId::new(1), 20).unwrap();
    let soda = create_test_soda();

    slot.configure_soda_type(soda.clone()).unwrap();
    assert!(slot.soda_type().is_some());
    assert_eq!(slot.soda_type().unwrap().name(), "Coca-Cola");
}

#[test]
fn test_configure_soda_type_when_not_empty() {
    let soda = create_test_soda();
    let mut slot = Slot::new_with_soda(SlotId::new(1), soda.clone(), 5, 20).unwrap();

    let result = slot.configure_soda_type(soda);
    assert!(result.is_err());
    assert_eq!(result.unwrap_err(), SlotError::SodaTypeMismatch);
}

#[test]
fn test_add_sodas() {
    let mut slot = Slot::new(SlotId::new(1), 20).unwrap();

    let added = slot.add_sodas(5).unwrap();
    assert_eq!(added, 5);
    assert_eq!(slot.quantity(), 5);
    assert_eq!(slot.remaining_capacity(), 15);
}

#[test]
fn test_add_sodas_exceeds_capacity() {
    let mut slot = Slot::new(SlotId::new(1), 20).unwrap();
    slot.add_sodas(15).unwrap();

    let result = slot.add_sodas(10);
    assert!(result.is_err());
    assert_eq!(result.unwrap_err(), SlotError::SlotFull);
    assert_eq!(slot.quantity(), 20); // Should be at capacity
}

#[test]
fn test_add_sodas_to_disabled_slot() {
    let mut slot = Slot::new(SlotId::new(1), 20).unwrap();
    slot.disable();

    let result = slot.add_sodas(5);
    assert!(result.is_err());
    assert_eq!(result.unwrap_err(), SlotError::SlotDisabled);
}

#[test]
fn test_remove_sodas() {
    let soda = create_test_soda();
    let mut slot = Slot::new_with_soda(SlotId::new(1), soda, 10, 20).unwrap();

    let removed = slot.remove_sodas(3).unwrap();
    assert_eq!(removed, 3);
    assert_eq!(slot.quantity(), 7);
}

#[test]
fn test_remove_sodas_from_empty_slot() {
    let mut slot = Slot::new(SlotId::new(1), 20).unwrap();

    let result = slot.remove_sodas(5);
    assert!(result.is_err());
    assert_eq!(result.unwrap_err(), SlotError::SlotEmpty);
}

#[test]
fn test_remove_sodas_from_disabled_slot() {
    let soda = create_test_soda();
    let mut slot = Slot::new_with_soda(SlotId::new(1), soda, 10, 20).unwrap();
    slot.disable();

    let result = slot.remove_sodas(5);
    assert!(result.is_err());
    assert_eq!(result.unwrap_err(), SlotError::SlotDisabled);
}

#[test]
fn slot_test_dispense_soda() {
    let soda = create_test_soda();
    let mut slot = Slot::new_with_soda(SlotId::new(1), soda.clone(), 5, 20).unwrap();

    let dispensed = slot.dispense_soda().unwrap();
    assert_eq!(dispensed.name(), "Coca-Cola");
    assert_eq!(slot.quantity(), 4);
}

#[test]
fn test_dispense_soda_from_empty_slot() {
    let mut slot = Slot::new(SlotId::new(1), 20).unwrap();

    let result = slot.dispense_soda();
    assert!(result.is_err());
    assert_eq!(result.unwrap_err(), SlotError::SlotEmpty);
}

#[test]
fn test_dispense_soda_from_disabled_slot() {
    let soda = create_test_soda();
    let mut slot = Slot::new_with_soda(SlotId::new(1), soda, 5, 20).unwrap();
    slot.disable();

    let result = slot.dispense_soda();
    assert!(result.is_err());
    assert_eq!(result.unwrap_err(), SlotError::SlotDisabled);
}

#[test]
fn slot_test_enable_disable() {
    let mut slot = Slot::new(SlotId::new(1), 20).unwrap();
    assert!(slot.is_enabled());

    slot.disable();
    assert!(!slot.is_enabled());

    slot.enable();
    assert!(slot.is_enabled());
}

#[test]
fn test_set_capacity() {
    let mut slot = Slot::new(SlotId::new(1), 20).unwrap();

    slot.set_capacity(30).unwrap();
    assert_eq!(slot.max_capacity(), 30);
}

#[test]
fn test_set_capacity_zero() {
    let mut slot = Slot::new(SlotId::new(1), 20).unwrap();

    let result = slot.set_capacity(0);
    assert!(result.is_err());
    assert_eq!(
        result.unwrap_err(),
        SlotError::InvalidCapacity("Capacity must be greater than 0".to_string())
    );
}

#[test]
fn test_set_capacity_below_quantity() {
    let soda = create_test_soda();
    let mut slot = Slot::new_with_soda(SlotId::new(1), soda, 10, 20).unwrap();

    let result = slot.set_capacity(5);
    assert!(result.is_err());
    assert_eq!(
        result.unwrap_err(),
        SlotError::InvalidCapacity("Cannot reduce capacity below current quantity".to_string())
    );
}

#[test]
fn test_total_value() {
    let soda = create_test_soda();
    let slot = Slot::new_with_soda(SlotId::new(1), soda, 5, 20).unwrap();

    let total_value = slot.total_value().unwrap();
    assert_eq!(total_value, Money::from_dollars_cents(7, 50).unwrap()); // $1.50 * 5
}

#[test]
fn test_total_value_empty_slot() {
    let slot = Slot::new(SlotId::new(1), 20).unwrap();
    assert!(slot.total_value().is_none());
}

#[test]
fn test_can_dispense() {
    let soda = create_test_soda();
    let slot = Slot::new_with_soda(SlotId::new(1), soda.clone(), 5, 20).unwrap();

    assert!(slot.can_dispense(&soda));
}

#[test]
fn test_can_dispense_different_soda() {
    let soda1 = create_test_soda();
    let soda2 = Soda::new(
        "Pepsi".to_string(),
        SodaFlavor::Cola,
        SodaSize::Medium,
        Money::from_dollars_cents(1, 50).unwrap(),
        false,
        true,
    )
    .unwrap();

    let slot = Slot::new_with_soda(SlotId::new(1), soda1, 5, 20).unwrap();

    assert!(!slot.can_dispense(&soda2));
}

#[test]
fn test_can_dispense_empty_slot() {
    let soda = create_test_soda();
    let slot = Slot::new(SlotId::new(1), 20).unwrap();

    assert!(!slot.can_dispense(&soda));
}

#[test]
fn test_can_dispense_disabled_slot() {
    let soda = create_test_soda();
    let mut slot = Slot::new_with_soda(SlotId::new(1), soda.clone(), 5, 20).unwrap();
    slot.disable();

    assert!(!slot.can_dispense(&soda));
}

#[test]
fn test_slot_id() {
    let id = SlotId::new(42);
    assert_eq!(id.value(), 42);
}

#[test]
fn test_slot_id_ordering() {
    let id1 = SlotId::new(1);
    let id2 = SlotId::new(2);
    let id3 = SlotId::new(1);

    assert!(id1 < id2);
    assert!(id1 == id3);
    assert!(id2 > id1);
}

#[test]
fn slot_test_display() {
    let soda = create_test_soda();
    let slot = Slot::new_with_soda(SlotId::new(1), soda, 5, 20).unwrap();

    assert_eq!(slot.to_string(), "Slot 1: Coca-Cola (5 of 20) - Enabled");
}

#[test]
fn test_display_empty_slot() {
    let slot = Slot::new(SlotId::new(2), 15).unwrap();

    assert_eq!(slot.to_string(), "Slot 2: Empty (0 of 15) - Enabled");
}

#[test]
fn test_display_disabled_slot() {
    let soda = create_test_soda();
    let mut slot = Slot::new_with_soda(SlotId::new(3), soda, 3, 10).unwrap();
    slot.disable();

    assert_eq!(slot.to_string(), "Slot 3: Coca-Cola (3 of 10) - Disabled");
}

#[test]
fn test_add_sodas_saturates_exactly_at_capacity() {
    // Asking for far more than fits leaves the quantity exactly at the
    // capacity and reports SlotFull, and the partial fill persists.
    let mut slot = Slot::new(SlotId::new(1), 7).unwrap();
    let result = slot.add_sodas(100);
    assert_eq!(result.unwrap_err(), SlotError::SlotFull);
    assert_eq!(slot.quantity(), 7);
    assert!(slot.is_full());

    // A request that exactly fills the slot succeeds without SlotFull.
    let mut other = Slot::new(SlotId::new(2), 7).unwrap();
    assert_eq!(other.add_sodas(7).unwrap(), 7);
    assert!(other.is_full());
}

#[test]
fn test_add_sodas_zero_is_noop() {
    let mut slot = Slot::new(SlotId::new(1), 5).unwrap();
    assert_eq!(slot.add_sodas(0).unwrap(), 0);
    assert_eq!(slot.quantity(), 0);
}

#[test]
fn test_remove_sodas_caps_at_quantity() {
    let soda = create_test_soda();
    let mut slot = Slot::new_with_soda(SlotId::new(1), soda, 4, 20).unwrap();
    assert_eq!(slot.remove_sodas(100).unwrap(), 4);
    assert_eq!(slot.quantity(), 0);
}

#[test]
fn test_slot_error_messages() {
    assert_eq!(SlotError::SlotEmpty.to_string(), "Slot is empty");
    assert_eq!(SlotError::SlotFull.to_string(), "Slot is full");
    assert_eq!(SlotError::SlotDisabled.to_string(), "Slot is disabled");
    assert_eq!(SlotError::SodaTypeMismatch.to_string(), "Soda type mismatch");
    assert_eq!(
        SlotError::InvalidCapacity("Capacity must be greater than 0".to_string()).to_string(),
        "Invalid capacity: Capacity must be greater than 0"
    );
}
