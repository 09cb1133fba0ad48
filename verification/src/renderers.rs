//! The renderers of devices and swapchains.

use dashmap::DashMap;
use vstd::prelude::*;

verus! {

/// What a map of renderers holds.
pub uninterp spec fn renderer_entries(map: DashMap<u64, u64>) -> Map<u64, u64>;

/// Makes a map with `DashMap::new`: it is empty.
#[verifier::external_body]
fn map_new() -> (r: DashMap<u64, u64>)
    ensures
        (renderer_entries(r) == (Map::<u64, u64>::empty())),
{
    DashMap::new()
}

/// Reads an entry with `DashMap::get`: the value under the key, if the key is there.
#[verifier::external_body]
fn map_get(map: &DashMap<u64, u64>, key: u64) -> (r: Option<u64>)
    ensures
        r == (if renderer_entries(*map).dom().contains(key) {
            Some(renderer_entries(*map)[key])
        } else {
            None
        }),
{
    map.get(&key).map(|entry| *entry)
}

/// Writes an entry with `DashMap::insert`: afterwards the key has the value, and the other
/// entries are what they were.
#[verifier::external_body]
fn map_insert(map: &mut DashMap<u64, u64>, key: u64, value: u64)
    ensures
        renderer_entries(*final(map)) == renderer_entries(*old(map)).insert(key, value),
{
    map.insert(key, value);
}

/// Takes an entry out with `DashMap::remove`: its value, if the key was there. Afterwards it is
/// not, and the other entries are what they were.
#[verifier::external_body]
fn map_remove(map: &mut DashMap<u64, u64>, key: u64) -> (r: Option<u64>)
    ensures
        renderer_entries(*final(map)) == renderer_entries(*old(map)).remove(key),
        r == (if renderer_entries(*old(map)).dom().contains(key) {
            Some(renderer_entries(*old(map))[key])
        } else {
            None
        }),
{
    map.remove(&key).map(|entry| entry.1)
}

/// The renderer of each device or swapchain that has one. Both are named by numbers.
#[derive(Debug)]
pub struct Renderers {
    map: DashMap<u64, u64>,
}

impl View for Renderers {
    type V = Map<u64, u64>;

    closed spec fn view(&self) -> Map<u64, u64> {
        renderer_entries(self.map)
    }
}

impl Renderers {
    /// No renderers.
    pub fn new() -> (r: Renderers)
        ensures
            r@ == (Map::<u64, u64>::empty()),
    {
        Renderers { map: map_new() }
    }

    /// The renderer of `owner`, if it has one.
    pub fn get(&self, owner: u64) -> (r: Option<u64>)
        ensures
            r == (if self@.dom().contains(owner) {
                Some(self@[owner])
            } else {
                None
            }),
    {
        map_get(&self.map, owner)
    }

    /// The renderer of `owner`: the one it has, or else the one that was made for it, if any was.
    /// A renderer that was made though there is one is not kept.
    pub fn get_or_insert<E>(&mut self, owner: u64, made: Result<u64, E>) -> (r: Result<
        u64,
        E,
    >)
        ensures
            old(self)@.dom().contains(owner) ==> r == Ok::<u64, E>(old(self)@[owner]),
            old(self)@.dom().contains(owner) ==> final(self)@ == old(self)@,
            !old(self)@.dom().contains(owner) ==> r == made && final(self)@ == (match made {
                Ok(renderer) => old(self)@.insert(owner, renderer),
                Err(_) => old(self)@,
            }),
    {
        if let Some(renderer) = map_get(&self.map, owner) {
            return Ok(renderer);
        }
        match made {
            Ok(renderer) => {
                map_insert(&mut self.map, owner, renderer);
                Ok(renderer)
            },
            Err(err) => Err(err),
        }
    }

    /// Forgets the renderer of `owner`, which is handed back to be given up.
    pub fn forget(&mut self, owner: u64) -> (r: Option<u64>)
        ensures
            final(self)@ == old(self)@.remove(owner),
            r == (if old(self)@.dom().contains(owner) {
                Some(old(self)@[owner])
            } else {
                None
            }),
    {
        map_remove(&mut self.map, owner)
    }
}

} // verus!
