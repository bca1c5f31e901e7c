use vstd::prelude::*;

verus! {

/// Distance the viewport moves per tick for each held directional key.
pub const MOVESPEED: i64 = 20;

/// A point on the integer grid: a block's place in the world, or the
/// viewport's scroll offset in pixels.
#[derive(Clone, Copy, Debug, PartialEq, Eq, Structural)]
pub struct Location {
    pub x: i64,
    pub y: i64,
}

impl View for Location {
    type V = (int, int);

    open spec fn view(&self) -> (int, int) {
        (self.x as int, self.y as int)
    }
}

/// The four ways the viewport can be panned.
#[derive(Clone, Copy, Debug, PartialEq, Eq, Structural)]
pub enum Intent {
    Up,
    Down,
    Left,
    Right,
}

/// A keyboard key as the controller sees it; `Other` carries the code of any
/// key that does not pan.
#[derive(Clone, Copy, Debug, PartialEq, Eq, Structural)]
pub enum Key {
    W,
    A,
    S,
    D,
    Up,
    Down,
    Left,
    Right,
    Other(u32),
}

/// The pan intent a key is bound to, if any.
pub open spec fn key_intent(key: Key) -> Option<Intent> {
    match key {
        Key::W | Key::Up => Some(Intent::Up),
        Key::A | Key::Left => Some(Intent::Left),
        Key::S | Key::Down => Some(Intent::Down),
        Key::D | Key::Right => Some(Intent::Right),
        Key::Other(_) => None,
    }
}

/// W and the up arrow pan up, A and the left arrow pan left, S and the down
/// arrow pan down, D and the right arrow pan right; other keys do nothing.
pub fn intent_of(key: Key) -> (r: Option<Intent>)
    ensures
        r == key_intent(key),
{
    match key {
        Key::W | Key::Up => Some(Intent::Up),
        Key::A | Key::Left => Some(Intent::Left),
        Key::S | Key::Down => Some(Intent::Down),
        Key::D | Key::Right => Some(Intent::Right),
        Key::Other(_) => None,
    }
}

/// The offset after one step of `intent`: up and left add `MOVESPEED` to `y`
/// and `x`, down and right take it away.
pub open spec fn pan_spec(v: (int, int), intent: Intent) -> (int, int) {
    match intent {
        Intent::Up => (v.0, v.1 + MOVESPEED),
        Intent::Down => (v.0, v.1 - MOVESPEED),
        Intent::Left => (v.0 + MOVESPEED, v.1),
        Intent::Right => (v.0 - MOVESPEED, v.1),
    }
}

/// The offset after `n` consecutive steps of `intent`.
pub open spec fn pan_n(v: (int, int), intent: Intent, n: nat) -> (int, int)
    decreases n,
{
    if n == 0 {
        v
    } else {
        pan_spec(pan_n(v, intent, (n - 1) as nat), intent)
    }
}

/// How far one press of `key` moves the offset along `x`.
pub open spec fn key_dx(key: Key) -> int {
    match key_intent(key) {
        Some(Intent::Left) => MOVESPEED as int,
        Some(Intent::Right) => -MOVESPEED,
        _ => 0,
    }
}

/// How far one press of `key` moves the offset along `y`.
pub open spec fn key_dy(key: Key) -> int {
    match key_intent(key) {
        Some(Intent::Up) => MOVESPEED as int,
        Some(Intent::Down) => -MOVESPEED,
        _ => 0,
    }
}

/// Total `x` movement of a tick in which `keys` are held.
pub open spec fn sum_dx(keys: Seq<Key>) -> int
    decreases keys.len(),
{
    if keys.len() == 0 {
        0
    } else {
        sum_dx(keys.drop_last()) + key_dx(keys.last())
    }
}

/// Total `y` movement of a tick in which `keys` are held.
pub open spec fn sum_dy(keys: Seq<Key>) -> int
    decreases keys.len(),
{
    if keys.len() == 0 {
        0
    } else {
        sum_dy(keys.drop_last()) + key_dy(keys.last())
    }
}

/// The offset stays `steps` moves of `MOVESPEED` (20) away from the ends of
/// `i64` on both axes.
pub open spec fn has_room(v: (int, int), steps: int) -> bool {
    &&& i64::MIN + 20 * steps <= v.0 <= i64::MAX - 20 * steps
    &&& i64::MIN + 20 * steps <= v.1 <= i64::MAX - 20 * steps
}

proof fn lemma_sum_bounds(keys: Seq<Key>)
    ensures
        -20 * keys.len() <= sum_dx(keys) <= 20 * keys.len(),
        -20 * keys.len() <= sum_dy(keys) <= 20 * keys.len(),
    decreases keys.len(),
{
    if keys.len() > 0 {
        lemma_sum_bounds(keys.drop_last());
    }
}

impl Location {
    /// Moves the offset one step in the direction of `intent`.
    pub fn pan(&mut self, intent: Intent)
        requires
            has_room(old(self)@, 1),
        ensures
            final(self)@ == pan_spec(old(self)@, intent),
    {
        match intent {
            Intent::Up => self.y = self.y + MOVESPEED,
            Intent::Down => self.y = self.y - MOVESPEED,
            Intent::Left => self.x = self.x + MOVESPEED,
            Intent::Right => self.x = self.x - MOVESPEED,
        }
    }

    /// Applies one tick of movement: one step for every held key that is
    /// bound to an intent, so that simultaneous keys add up.
    pub fn apply_keys(&mut self, keys: &Vec<Key>)
        requires
            has_room(old(self)@, keys.len() as int),
        ensures
            final(self)@ == (old(self)@.0 + sum_dx(keys@), old(self)@.1 + sum_dy(keys@)),
    {
        let ghost start = self@;
        let mut i: usize = 0;
        while i < keys.len()
            invariant
                i <= keys.len(),
                has_room(start, keys.len() as int),
                self@ == (start.0 + sum_dx(keys@.take(i as int)), start.1 + sum_dy(
                    keys@.take(i as int),
                )),
            decreases keys.len() - i,
        {
            proof {
                lemma_sum_bounds(keys@.take(i as int));
                assert(keys@.take(i as int + 1).drop_last() == keys@.take(i as int));
            }
            match intent_of(keys[i]) {
                Some(intent) => self.pan(intent),
                None => {},
            }
            i = i + 1;
        }
        assert(keys@.take(keys.len() as int) == keys@);
    }
}

/// Panning in one direction for `n` ticks moves the offset by exactly
/// `n * MOVESPEED` along that direction's axis: the same offset a single
/// jump of that size gives.
pub proof fn lemma_pan_additive(v: (int, int), n: nat)
    ensures
        pan_n(v, Intent::Right, n) == (v.0 - n * MOVESPEED, v.1),
        pan_n(v, Intent::Left, n) == (v.0 + n * MOVESPEED, v.1),
        pan_n(v, Intent::Up, n) == (v.0, v.1 + n * MOVESPEED),
        pan_n(v, Intent::Down, n) == (v.0, v.1 - n * MOVESPEED),
    decreases n,
{
    if n > 0 {
        lemma_pan_additive(v, (n - 1) as nat);
        assert((n - 1) * MOVESPEED + MOVESPEED == n * MOVESPEED) by (nonlinear_arith);
    }
}

/// Panning left for `n` ticks and then right for `n` ticks (or up, then
/// down) brings the offset back to where it started.
pub proof fn lemma_pan_cancels(v: (int, int), n: nat)
    ensures
        pan_n(pan_n(v, Intent::Left, n), Intent::Right, n) == v,
        pan_n(pan_n(v, Intent::Right, n), Intent::Left, n) == v,
        pan_n(pan_n(v, Intent::Up, n), Intent::Down, n) == v,
        pan_n(pan_n(v, Intent::Down, n), Intent::Up, n) == v,
{
    lemma_pan_additive(v, n);
    lemma_pan_additive(pan_n(v, Intent::Left, n), n);
    lemma_pan_additive(pan_n(v, Intent::Right, n), n);
    lemma_pan_additive(pan_n(v, Intent::Up, n), n);
    lemma_pan_additive(pan_n(v, Intent::Down, n), n);
}

} // verus!
