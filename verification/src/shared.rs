use vstd::prelude::*;

verus! {

#[verifier::external_type_specification]
#[verifier::external_body]
#[verifier::reject_recursive_types(T)]
pub struct ExMutex<T: ?Sized>(std::sync::Mutex<T>);

/// `std::sync::Mutex::new`: a new mutex holding `t`. Its contents are not
/// modelled, so nothing is stated of the result.
pub assume_specification<T>[ std::sync::Mutex::<T>::new ](t: T) -> std::sync::Mutex<T>;

/// Shared, locked data.
pub fn arc2<T>(data: T) -> (r: std::sync::Arc<std::sync::Mutex<T>>) {
    std::sync::Arc::new(std::sync::Mutex::new(data))
}

/// Calls `std::sync::Arc::clone`: another pointer to the same allocation, so
/// the result is the very cell that `cell` points to.
#[verifier::external_body]
pub fn share<T>(cell: &std::sync::Arc<std::sync::Mutex<T>>) -> (r: std::sync::Arc<std::sync::Mutex<T>>)
    ensures
        r == *cell,
{
    std::sync::Arc::clone(cell)
}

/// Calls `std::sync::Mutex::lock` and stores `text` in the cell, also when an
/// earlier holder panicked. What a cell holds is not modelled, so nothing is
/// stated of it.
#[verifier::external_body]
pub fn store_text(cell: &std::sync::Mutex<String>, text: &str) {
    match cell.lock() {
        Ok(mut held) => *held = text.to_owned(),
        Err(poisoned) => *poisoned.into_inner() = text.to_owned(),
    }
}

/// Calls `std::sync::Mutex::lock` and returns a copy of the text in the cell,
/// also when an earlier holder panicked. What a cell holds depends on every
/// earlier store through any pointer to it, so nothing is stated of the result.
#[verifier::external_body]
pub fn load_text(cell: &std::sync::Mutex<String>) -> (text: String) {
    match cell.lock() {
        Ok(held) => held.clone(),
        Err(poisoned) => poisoned.into_inner().clone(),
    }
}

} // verus!
