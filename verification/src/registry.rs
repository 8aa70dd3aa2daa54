use std::collections::HashMap;
use vstd::prelude::*;

verus! {

broadcast use vstd::std_specs::hash::group_hash_axioms;

/// The table after `artifact` has been registered for `guild`: that guild now
/// maps to `artifact`, every other guild keeps what it had.
pub open spec fn spec_register<A>(table: Map<u64, A>, guild: u64, artifact: A) -> Map<u64, A> {
    table.insert(guild, artifact)
}

/// What a lookup of `guild` finds in the table.
pub open spec fn spec_lookup<A>(table: Map<u64, A>, guild: u64) -> Option<A> {
    if table.contains_key(guild) {
        Some(table[guild])
    } else {
        None
    }
}

/// The registered sounds, at most one per guild. The artifact type is chosen
/// by the caller; the registry only stores it and hands out references.
pub struct SoundRegistry<A> {
    sounds: HashMap<u64, A>,
}

impl<A> View for SoundRegistry<A> {
    type V = Map<u64, A>;

    closed spec fn view(&self) -> Map<u64, A> {
        self.sounds@
    }
}

impl<A> SoundRegistry<A> {
    /// A registry in which no guild has a sound.
    pub fn new() -> (registry: Self)
        ensures
            registry@ == Map::<u64, A>::empty(),
    {
        SoundRegistry { sounds: HashMap::new() }
    }

    /// Installs `artifact` as the sound of `guild`, replacing any earlier one.
    pub fn register(&mut self, guild: u64, artifact: A)
        ensures
            final(self)@ == spec_register(old(self)@, guild, artifact),
    {
        let _ = self.sounds.insert(guild, artifact);
    }

    /// The sound currently registered for `guild`, if there is one.
    pub fn lookup(&self, guild: u64) -> (found: Option<&A>)
        ensures
            match found {
                Some(artifact) => spec_lookup(self@, guild) == Some(*artifact),
                None => spec_lookup(self@, guild).is_none(),
            },
    {
        self.sounds.get(&guild)
    }

    /// Whether `guild` has a registered sound.
    pub fn has_sound(&self, guild: u64) -> (present: bool)
        ensures
            present == self@.contains_key(guild),
    {
        self.sounds.contains_key(&guild)
    }

    /// The number of guilds that have a registered sound.
    pub fn len(&self) -> (count: usize)
        ensures
            count == self@.len(),
            self@.dom().finite(),
    {
        self.sounds.len()
    }
}

/// A lookup that follows a registration for the same guild finds the
/// artifact that was registered. Lookups do not change the table, so this
/// holds of each of any number of lookups made before the next registration.
pub proof fn lemma_lookup_after_register<A>(table: Map<u64, A>, guild: u64, artifact: A)
    ensures
        spec_lookup(spec_register(table, guild, artifact), guild) == Some(artifact),
{
}

/// Of two registrations for one guild the later one wins: a lookup finds the
/// second artifact, and the table is the one that the second registration
/// alone would have produced.
pub proof fn lemma_register_replaces<A>(table: Map<u64, A>, guild: u64, first: A, second: A)
    ensures
        spec_lookup(spec_register(spec_register(table, guild, first), guild, second), guild)
            == Some(second),
        spec_register(spec_register(table, guild, first), guild, second) == spec_register(
            table,
            guild,
            second,
        ),
{
    assert(table.insert(guild, first).insert(guild, second) =~= table.insert(guild, second));
}

/// A registration touches only its own guild: what a lookup finds for any
/// other guild is what it found before.
pub proof fn lemma_register_leaves_others<A>(
    table: Map<u64, A>,
    guild: u64,
    artifact: A,
    other: u64,
)
    requires
        other != guild,
    ensures
        spec_lookup(spec_register(table, guild, artifact), other) == spec_lookup(table, other),
{
}

} // verus!
