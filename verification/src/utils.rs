//! Chat kinds and the random draws behind Momo's whims.
use vstd::prelude::*;

verus! {

/// A value drawn uniformly from all `usize` values (`rand::random::<usize>`).
/// Nothing is promised of it: every value is possible.
#[verifier::external_body]
pub(crate) fn random_usize() -> usize {
    rand::random::<usize>()
}


/// A value drawn uniformly from all `u64` values (`rand::random::<u64>`).
/// Nothing is promised of it: every value is possible.
#[verifier::external_body]
pub(crate) fn random_u64() -> u64 {
    rand::random::<u64>()
}

/// A chance roll: a value below `ROLL_SCALE`, drawn at random.
pub fn random_roll() -> (r: u32)
    ensures
        r < crate::config::ROLL_SCALE,
{
    (random_u64() % (crate::config::ROLL_SCALE as u64)) as u32
}

/// Check if a chat is a group or channel (not private)
pub fn is_group_or_channel(kind: crate::types::ChatKind) -> (r: bool)
    ensures
        r == (kind != crate::types::ChatKind::Private),
{
    match kind {
        crate::types::ChatKind::Private => false,
        _ => true,
    }
}

/// The item that `draw` selects: the one at `draw` modulo the length.
pub fn choice_by_draw<T>(items: &[T], draw: usize) -> (r: &T)
    requires
        items@.len() > 0,
    ensures
        *r == items@[(draw as int) % (items@.len() as int)],
{
    &items[draw % items.len()]
}

/// Select a random item from a slice, which must not be empty.
pub fn random_choice<T>(items: &[T]) -> (r: &T)
    requires
        items@.len() > 0,
    ensures
        exists|i: int| 0 <= i < items@.len() && *r == #[trigger] items@[i],
{
    let draw = random_usize();
    choice_by_draw(items, draw)
}

} // verus!
