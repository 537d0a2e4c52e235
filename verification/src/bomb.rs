//! The drop bomb that guards a history, from the `drop_bomb` crate.

use drop_bomb::DropBomb;
use vstd::prelude::*;

verus! {

/// `drop_bomb::DropBomb`: a value that panics when dropped unless it was
/// defused.
#[verifier::external_type_specification]
#[verifier::external_body]
pub struct ExDropBomb(drop_bomb::DropBomb);

/// What `DropBomb::is_defused` returns for the bomb: whether it can be dropped
/// in silence.
pub uninterp spec fn bomb_is_defused(bomb: DropBomb) -> bool;

/// The message that the bomb panics with.
pub uninterp spec fn bomb_message(bomb: DropBomb) -> Seq<char>;

/// `DropBomb::new`. Trusted: the bomb is armed and holds `message`.
#[verifier::external_body]
pub(crate) fn arm(message: &'static str) -> (bomb: DropBomb)
    ensures
        !bomb_is_defused(bomb),
        bomb_message(bomb) == message@,
{
    DropBomb::new(message)
}

/// `DropBomb::defuse`. Trusted: the bomb is defused and keeps its message.
pub assume_specification[ drop_bomb::DropBomb::defuse ](bomb: &mut drop_bomb::DropBomb)
    ensures
        bomb_is_defused(*final(bomb)),
        bomb_message(*final(bomb)) == bomb_message(*old(bomb)),
;

} // verus!
