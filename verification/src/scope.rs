//! The styled block: overrides that last exactly as long as a block of drawing
//! code runs.

use crate::laws::lemma_exit_undoes_enter;
use crate::stack::OverrideStack;
use crate::style::popped;
use crate::style::pushed;
use crate::style::Style;
use vstd::prelude::*;

verus! {

/// Whether `inner` is an override stack as a block finds it when it is run for
/// a scope with `styles` that was opened on `outer`: the scope's overrides are
/// active on top of the outer ones, and the history has grown by their
/// application.
pub open spec fn inside_scope<'ui>(
    inner: OverrideStack<'ui>,
    outer: OverrideStack<'ui>,
    styles: Seq<Style>,
) -> bool {
    &&& inner@ == outer@.entered(styles)
    &&& inner.trace() == outer.trace() + pushed(styles)
}

/// Applies `styles` in order, runs `ui_block` while they are active, reverts
/// them in reverse order and hands back what the block returned.
///
/// The block gets the override stack, so that it can open scopes of its own. It
/// has to leave the active overrides as it found them, which every block does
/// that changes them through nested styled blocks only. Whatever the block
/// returns, a failure included, the caller sees it only after the scope's own
/// overrides are gone.
pub fn style_block<'ui, R, F>(
    styles: Vec<Style>,
    ui_block: F,
    stack: &mut OverrideStack<'ui>,
) -> (result: R)
    where
        F: FnOnce(&mut OverrideStack<'ui>) -> R,
    requires
        forall|inner: &mut OverrideStack<'ui>|
            inside_scope(*inner, *old(stack), styles@) ==> #[trigger] call_requires(
                ui_block,
                (inner,),
            ),
        forall|inner: &mut OverrideStack<'ui>, out: R|
            inside_scope(*inner, *old(stack), styles@) && #[trigger] call_ensures(
                ui_block,
                (inner,),
                out,
            ) ==> final(inner)@ == inner@,
    ensures
        final(stack)@ == old(stack)@,
        exists|inner: &mut OverrideStack<'ui>|
            {
                &&& inside_scope(*inner, *old(stack), styles@)
                &&& #[trigger] call_ensures(ui_block, (inner,), result)
                &&& final(stack)@ == final(inner)@.exited(styles@)
                &&& final(stack).trace() == final(inner).trace() + popped(styles@)
            },
{
    stack.enter(&styles);
    let result = ui_block(stack);
    proof {
        lemma_exit_undoes_enter(old(stack)@, styles@);
    }
    stack.exit(&styles);
    result
}

} // verus!
