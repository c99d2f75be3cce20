//! What the library takes on trust: the outside types it carries, and one
//! function for each outside function it calls.
use crate::kind::Kind;
use dashmap::DashMap;
use std::sync::Arc;
use tokio::sync::Mutex;
use vstd::prelude::*;

verus! {

/// `tokio::process::Child`, carried as it is.
#[verifier::external_type_specification]
#[verifier::external_body]
pub struct ExChild(tokio::process::Child);

/// `tokio::process::ChildStdin`, carried as it is.
#[verifier::external_type_specification]
#[verifier::external_body]
pub struct ExChildStdin(tokio::process::ChildStdin);

/// `tokio::process::ChildStdout`, carried as it is.
#[verifier::external_type_specification]
#[verifier::external_body]
pub struct ExChildStdout(tokio::process::ChildStdout);

/// `tokio::process::ChildStderr`, carried as it is.
#[verifier::external_type_specification]
#[verifier::external_body]
pub struct ExChildStderr(tokio::process::ChildStderr);

/// `tokio::sync::Mutex`, carried as it is. What a mutex holds changes behind
/// shared references, so no contract speaks of it.
#[verifier::external_type_specification]
#[verifier::external_body]
#[verifier::reject_recursive_types(T)]
pub struct ExMutex<T: ?Sized>(tokio::sync::Mutex<T>);

/// `dashmap::DashMap`, the map that holds the children of a garden.
#[verifier::external_type_specification]
#[verifier::external_body]
#[verifier::reject_recursive_types(K)]
#[verifier::reject_recursive_types(V)]
#[verifier::reject_recursive_types(S)]
pub struct ExDashMap<K, V, S>(dashmap::DashMap<K, V, S>);

/// The key-value pairs that a map holds. The functions below that change a map
/// take it by exclusive reference, though `DashMap` would not ask for it: so
/// nothing changes the map while a shared reference to it is out.
pub uninterp spec fn map_contents(table: DashMap<u128, Kind>) -> Map<u128, Kind>;

/// `DashMap::default`: the new map holds nothing.
#[verifier::external_body]
pub(crate) fn map_default() -> (table: DashMap<u128, Kind>)
    ensures
        map_contents(table) == (Map::<u128, Kind>::empty()),
{
    DashMap::default()
}

/// `DashMap::get`: what `read` returns of the value under `key`, or `None` where
/// the map has no such key.
#[verifier::external_body]
pub(crate) fn map_get<R, F: FnOnce(&Kind) -> R>(
    table: &DashMap<u128, Kind>,
    key: u128,
    read: F,
) -> (found: Option<R>)
    requires
        map_contents(*table).contains_key(key) ==> read.requires((&map_contents(*table)[key],)),
    ensures
        found is Some <==> map_contents(*table).contains_key(key),
        found matches Some(result) ==> read.ensures((&map_contents(*table)[key],), result),
{
    table.get(&key).map(|entry| read(entry.value()))
}

/// `DashMap::insert`: afterwards the map holds `kind` under `key` and is
/// otherwise as it was; the value that was there before is returned.
#[verifier::external_body]
pub(crate) fn map_insert(table: &mut DashMap<u128, Kind>, key: u128, kind: Kind) -> (replaced: Option<
    Kind,
>)
    ensures
        map_contents(*final(table)) == map_contents(*old(table)).insert(key, kind),
        replaced == map_contents(*old(table)).get(key),
{
    table.insert(key, kind)
}

/// `DashMap::remove`: afterwards the map does not hold `key` and is otherwise
/// as it was; the pair that was there before is returned.
#[verifier::external_body]
pub(crate) fn map_remove(table: &mut DashMap<u128, Kind>, key: u128) -> (removed: Option<(u128, Kind)>)
    ensures
        map_contents(*final(table)) == map_contents(*old(table)).remove(key),
        removed == (match map_contents(*old(table)).get(key) {
            Some(kind) => Some((key, kind)),
            None => None,
        }),
{
    table.remove(&key)
}

/// The fixed bits of a random UUID, read as a big-endian number: version 4 in
/// the thirteenth hexadecimal digit, and the variant bits `10` at the top of the
/// seventeenth.
pub open spec fn is_random_uuid(id: u128) -> bool {
    &&& (id >> 76) & 0xf == 4
    &&& (id >> 62) & 0x3 == 2
}

/// `Uuid::new_v4`, as its big-endian number. The random bits are the operating
/// system's (without any to be had, the call does not return); version and
/// variant are the same in every outcome. Nothing says that two calls give two
/// numbers.
#[verifier::external_body]
pub(crate) fn random_uuid() -> (id: u128)
    ensures
        is_random_uuid(id),
{
    uuid::Uuid::new_v4().as_u128()
}

/// `id` is one that `Uuid::new_v4` returned.
pub closed spec fn drawn(id: u128) -> bool {
    call_ensures(random_uuid, (), id)
}

/// Draws the number of a new random UUID.
pub(crate) fn draw() -> (id: u128)
    ensures
        drawn(id),
        is_random_uuid(id),
{
    random_uuid()
}

/// A number counts as drawn only where `Uuid::new_v4` returned it, and then its
/// thirteenth hexadecimal digit is 4 and its seventeenth is 8, 9, a or b.
pub(crate) proof fn law_drawn(id: u128)
    requires
        drawn(id),
    ensures
        call_ensures(random_uuid, (), id),
        (id >> 76) & 0xf == 4,
        (id >> 62) & 0x3 == 2,
{
}

/// `tokio::sync::Mutex::new`: a mutex around `value`. Which mutex it is and what
/// it comes to hold is left unsaid; [`guards`] relates it to the value it was
/// made of.
#[verifier::external_body]
pub(crate) fn mutex_new<T>(value: T) -> (mutex: Mutex<T>) {
    Mutex::new(value)
}

/// `mutex` is one that `Mutex::new` returned when it was given `value`.
pub closed spec fn guards<T>(mutex: Mutex<T>, value: T) -> bool {
    call_ensures(mutex_new::<T>, (value,), mutex)
}

/// A mutex counts as guarding a value only where `Mutex::new` returned it for that
/// very value.
pub(crate) proof fn law_guards<T>(mutex: Mutex<T>, value: T)
    requires
        guards(mutex, value),
    ensures
        call_ensures(mutex_new::<T>, (value,), mutex),
{
}

/// Puts `value` behind a mutex of its own.
pub(crate) fn guard<T>(value: T) -> (mutex: Mutex<T>)
    ensures
        guards(mutex, value),
{
    mutex_new(value)
}

/// `Arc::clone`: one more pointer to the same allocation.
#[verifier::external_body]
pub(crate) fn arc_clone<T>(pointer: &Arc<T>) -> (other: Arc<T>)
    ensures
        other == *pointer,
{
    pointer.clone()
}

} // verus!
