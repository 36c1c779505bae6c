//! Issues identifiers from a counter kept in a cell of stable memory.

use crate::error::Error;
use ic_stable_structures::cell::{InitError, ValueError};
use ic_stable_structures::memory_manager::{MemoryId, MemoryManager, VirtualMemory};
use ic_stable_structures::{Cell, DefaultMemoryImpl};
use vstd::prelude::*;

verus! {

/// `ic_stable_structures::cell::ValueError`, why a cell refused a value.
/// Carried through unread.
#[verifier::external_type_specification]
#[verifier::external_body]
pub struct ExValueError(ValueError);

/// `ic_stable_structures::cell::InitError`, why a cell could not be
/// opened. Carried through unread.
#[verifier::external_type_specification]
#[verifier::external_body]
pub struct ExInitError(InitError);

/// The stable memory of the process, divided into independent regions: a
/// `MemoryManager` over the default memory. Nothing is known of what it
/// holds.
#[verifier::external_body]
pub struct StableRegions {
    manager: MemoryManager<DefaultMemoryImpl>,
}

/// A `Cell` in one region of stable memory that holds a counter. All that
/// is known of it is what `cell_get` and `cell_set` state over
/// `counter_value`.
#[verifier::external_body]
pub struct CounterCell {
    cell: Cell<u64, VirtualMemory<DefaultMemoryImpl>>,
}

/// The number of regions that stable memory can be divided into.
pub const REGION_LIMIT: u8 = 255;

/// The identifier that a counter starts from in a region that holds none.
pub const FIRST_ID: u64 = 0;

/// The value that a counter cell holds: what `Cell::get` hands out.
pub uninterp spec fn counter_value(cell: &CounterCell) -> u64;

/// `MemoryManager::init` on the default memory (`DefaultMemoryImpl::default`):
/// loads the division into regions that the memory already holds, or starts
/// a new one on a memory that holds none. Nothing is claimed of the result.
#[verifier::external_body]
fn manager_init() -> (regions: StableRegions) {
    StableRegions { manager: MemoryManager::init(DefaultMemoryImpl::default()) }
}

/// `Cell::init` with default value `default_value` on the region numbered
/// `region` (`MemoryManager::get` of `MemoryId::new(region)`, which accepts
/// every number but 255). The cell takes up the counter that the region
/// already holds, and `default_value` where it holds none; which of the two
/// depends on the memory, so nothing is claimed of the cell's value. A
/// region that holds bytes which no counter cell wrote is not meant for it.
#[verifier::external_body]
fn cell_init(regions: &StableRegions, region: u8, default_value: u64) -> (outcome: Result<
    CounterCell,
    InitError,
>)
    requires
        region < REGION_LIMIT,
{
    match Cell::init(regions.manager.get(MemoryId::new(region)), default_value) {
        Ok(cell) => Ok(CounterCell { cell }),
        Err(e) => Err(e),
    }
}

/// `Cell::get`: the value that the cell holds.
#[verifier::external_body]
fn cell_get(cell: &CounterCell) -> (value: u64)
    ensures
        value == counter_value(cell),
{
    *cell.cell.get()
}

/// `Cell::set`: on success the cell holds `value` and the value it held
/// before is returned; on failure the cell holds what it held before.
#[verifier::external_body]
fn cell_set(cell: &mut CounterCell, value: u64) -> (outcome: Result<u64, ValueError>)
    ensures
        outcome matches Ok(previous) ==> previous == counter_value(old(cell)) && counter_value(
            final(cell),
        ) == value,
        outcome is Err ==> counter_value(final(cell)) == counter_value(old(cell)),
{
    cell.cell.set(value)
}

impl StableRegions {
    /// Opens the stable memory of the process.
    pub fn open() -> (regions: Self) {
        manager_init()
    }
}

/// A source of strictly increasing identifiers, starting from the counter
/// that its region holds (`FIRST_ID` in a region never used before).
pub struct IdAllocator {
    cell: CounterCell,
}

impl IdAllocator {
    /// The identifier that the next successful allocation returns. Every
    /// identifier below it counts as issued.
    pub closed spec fn upcoming(&self) -> u64 {
        counter_value(&self.cell)
    }

    /// What `open` returns for each outcome of opening the region's cell.
    pub fn from_outcome(outcome: Result<CounterCell, InitError>) -> (allocator: Result<Self, Error>)
        ensures
            match outcome {
                Ok(cell) => allocator matches Ok(a) && a.upcoming() == counter_value(&cell),
                Err(_) => allocator == Err::<Self, Error>(Error::CounterUnavailable),
            },
    {
        match outcome {
            Ok(cell) => Ok(IdAllocator { cell }),
            Err(_) => Err(Error::CounterUnavailable),
        }
    }

    /// Opens the allocator whose counter lives in the region numbered
    /// `region`; region numbers run from 0 to `REGION_LIMIT - 1`. The
    /// allocator goes on from the counter that the region holds, and from
    /// `FIRST_ID` in a region that holds none. Keep one allocator per region: two
    /// that are opened on the same region each count from what it held
    /// when they were opened.
    pub fn open(regions: &StableRegions, region: u8) -> (allocator: Result<Self, Error>)
        requires
            region < REGION_LIMIT,
        ensures
            allocator matches Err(e) ==> e == Error::CounterUnavailable,
    {
        Self::from_outcome(cell_init(regions, region, FIRST_ID))
    }

    /// The identifier that the next allocation would return.
    pub fn peek(&self) -> (id: u64)
        ensures
            id == self.upcoming(),
    {
        cell_get(&self.cell)
    }

    /// What `next` returns for each outcome of writing the advanced counter:
    /// the value that the cell held before, if the write went through.
    pub fn issued_from(outcome: Result<u64, ValueError>) -> (issued: Option<u64>)
        ensures
            match outcome {
                Ok(previous) => issued == Some(previous),
                Err(_) => issued is None,
            },
    {
        match outcome {
            Ok(previous) => Some(previous),
            Err(_) => None,
        }
    }

    /// Issues the upcoming identifier and advances the counter by one.
    /// Returns `None`, and leaves the counter as it was, when the counter
    /// has reached `u64::MAX` or the cell refuses the write.
    pub fn next(&mut self) -> (issued: Option<u64>)
        ensures
            match issued {
                Some(id) => {
                    &&& id == old(self).upcoming()
                    &&& final(self).upcoming() == id + 1
                },
                None => final(self).upcoming() == old(self).upcoming(),
            },
            old(self).upcoming() == u64::MAX ==> issued is None,
    {
        let current = cell_get(&self.cell);
        if current == u64::MAX {
            return None;
        }
        Self::issued_from(cell_set(&mut self.cell, current + 1))
    }
}

} // verus!
