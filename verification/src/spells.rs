use vstd::hash_map::StringHashMap;
use vstd::prelude::*;

verus! {

/// The element of a spell.
#[derive(Clone, Copy, PartialEq, Eq, Debug)]
pub enum SpellType {
    Fire,
    Ice,
}

/// A spell: its name as shown in the menu, what it costs and how strong it
/// is.
#[derive(Clone, Debug)]
pub struct SpellDef {
    pub name: String,
    pub mp_cost: u32,
    pub power: u32,
    pub magic_type: SpellType,
}

/// Every spell of the game, by its id.
pub struct SpellLibrary {
    pub magics: StringHashMap<SpellDef>,
}

impl SpellLibrary {
    /// An empty library.
    pub fn new() -> (lib: Self)
        ensures
            lib.magics@ == Map::<Seq<char>, SpellDef>::empty(),
    {
        SpellLibrary { magics: StringHashMap::new() }
    }

    /// Files `spell` under `spell_id`, in place of any spell filed there
    /// before.
    pub fn add_spell(&mut self, spell_id: String, spell: SpellDef)
        ensures
            final(self).magics@ == old(self).magics@.insert(spell_id@, spell),
    {
        self.magics.insert(spell_id, spell);
    }

    /// The spell filed under `spell_id`, if any.
    pub fn get_spell(&self, spell_id: &str) -> (spell: Option<&SpellDef>)
        ensures
            match spell {
                Some(s) => self.magics@.contains_key(spell_id@) && *s == self.magics@[spell_id@],
                None => !self.magics@.contains_key(spell_id@),
            },
    {
        self.magics.get(spell_id)
    }
}

} // verus!
