//! The pure data crossing the service boundary: money leaves as a
//! two-decimal string, never as a floating-point number.

use vstd::prelude::*;
use vstd::string::*;

use crate::machine::available_of;
use crate::machine::machine_wf;
use crate::machine::SodaMachine;
use crate::money::money_decimal;
use crate::soda::soda_wf;
use crate::slot::slot_wf;
use crate::slot::SlotView;

verus! {

/// One row of the consumer's listing: a slot able to dispense, its
/// soda's name, and the price rendered with two decimals.
#[derive(Debug, Clone, PartialEq, Eq)]
pub struct AvailableSodaDTO {
    pub slot_id: u32,
    pub soda_name: String,
    pub price: String,
}

proof fn lemma_available_wf(s: Seq<SlotView>)
    requires
        forall|i: int| 0 <= i < s.len() ==> slot_wf(#[trigger] s[i]),
    ensures
        forall|k: int|
            0 <= k < available_of(s).len() ==> soda_wf((#[trigger] available_of(s)[k]).1),
    decreases s.len(),
{
    if s.len() > 0 {
        assert(forall|i: int| 0 <= i < s.drop_last().len() ==> slot_wf(#[trigger] s.drop_last()[i]));
        lemma_available_wf(s.drop_last());
        let rest = available_of(s.drop_last());
        assert(slot_wf(s.last()));
        assert forall|k: int|
            0 <= k < available_of(s).len() implies soda_wf((#[trigger] available_of(s)[k]).1) by {
            if k < rest.len() {
                assert(available_of(s)[k] == rest[k]);
            } else {
                assert(available_of(s)[k] == (s.last().id, s.last().soda->Some_0));
            }
        }
    }
}

/// The listing a consumer sees: every slot currently able to dispense,
/// with its soda's name and two-decimal price.
pub fn available_soda_dtos(machine: &SodaMachine) -> (r: Vec<AvailableSodaDTO>)
    requires
        machine_wf(machine@),
    ensures
        r@.len() == available_of(machine@.slots).len(),
        forall|k: int|
            0 <= k < r@.len() ==> {
                let entry = available_of(machine@.slots)[k];
                &&& (#[trigger] r@[k]).slot_id == entry.0
                &&& r@[k].soda_name@ == entry.1.name
                &&& r@[k].price@ == money_decimal(entry.1.price)
            },
{
    proof {
        lemma_available_wf(machine@.slots);
    }
    let available = machine.get_available_sodas();
    let ghost av = available_of(machine@.slots);
    let n = available.len();
    let mut r: Vec<AvailableSodaDTO> = Vec::new();
    let mut i: usize = 0;
    while i < n
        invariant
            n == av.len(),
            n == available@.len(),
            i <= n,
            av == available_of(machine@.slots),
            available@.map_values(|p: (crate::slot::SlotId, &crate::soda::Soda)| (p.0@, p.1@))
                == av,
            forall|k: int| 0 <= k < av.len() ==> soda_wf((#[trigger] av[k]).1),
            r@.len() == i,
            forall|k: int|
                0 <= k < i ==> {
                    let entry = av[k];
                    &&& (#[trigger] r@[k]).slot_id == entry.0
                    &&& r@[k].soda_name@ == entry.1.name
                    &&& r@[k].price@ == money_decimal(entry.1.price)
                },
        decreases n - i,
    {
        let (sid, soda) = available[i];
        proof {
            assert(av[i as int] == (sid@, soda@));
        }
        r.push(
            AvailableSodaDTO {
                slot_id: sid.value(),
                soda_name: String::from_str(soda.name()),
                price: soda.price().to_decimal_string(),
            },
        );
        i = i + 1;
    }
    r
}

} // verus!
