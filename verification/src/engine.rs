use vstd::prelude::*;

verus! {

/// A scripted agent; callers implement its behaviour.
pub trait Bot {
    fn apply(&self);
}

/// Something on stage that can be drawn and advanced.
pub trait Actor {
    fn draw(&self);

    fn update(&mut self);
}

/// A bot together with its activation flag.
pub struct BotContainer<B: Bot> {
    pub is_active: bool,
    pub bot: B,
}

impl<B: Bot> BotContainer<B> {
    pub fn new(is_active: bool, bot: B) -> (r: Self)
        ensures
            r.is_active == is_active,
    {
        BotContainer { is_active, bot }
    }
}

/// A pickup with an id and how much it strengthens the one who takes it.
pub struct Mushroom {
    pub id: u32,
    pub strength: u8,
}

impl Mushroom {
    pub fn new(id: u32, strength: u8) -> (r: Self)
        ensures
            r.id == id,
            r.strength == strength,
    {
        Mushroom { id, strength }
    }
}

} // verus!
