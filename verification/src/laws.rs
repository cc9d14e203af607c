//! What holds of scopes in general, stated over the model of the override
//! stack and proved once for all inputs.

use crate::stack::Overrides;
use crate::style::colors_of;
use crate::style::configs_of;
use crate::style::popped;
use crate::style::pushed;
use crate::style::Event;
use crate::style::Style;
use vstd::prelude::*;

verus! {

/// The configuration overrides among the first `k` styles are those among the
/// first `k - 1`, followed by the `k`-th itself where it is one.
pub proof fn lemma_configs_of_take(styles: Seq<Style>, k: int)
    requires
        0 < k <= styles.len(),
    ensures
        configs_of(styles.take(k)) == match styles[k - 1] {
            Style::Config(var) => configs_of(styles.take(k - 1)).push(var),
            Style::Color(_, _) => configs_of(styles.take(k - 1)),
        },
{
    assert(styles.take(k).drop_last() =~= styles.take(k - 1));
}

/// The color overrides among the first `k` styles are those among the first
/// `k - 1`, followed by the `k`-th itself where it is one.
pub proof fn lemma_colors_of_take(styles: Seq<Style>, k: int)
    requires
        0 < k <= styles.len(),
    ensures
        colors_of(styles.take(k)) == match styles[k - 1] {
            Style::Config(_) => colors_of(styles.take(k - 1)),
            Style::Color(slot, color) => colors_of(styles.take(k - 1)).push((slot, color)),
        },
{
    assert(styles.take(k).drop_last() =~= styles.take(k - 1));
}

/// Overrides that end with a scope's own are what entering that scope makes of
/// the overrides beneath them.
pub proof fn lemma_ends_with_rebuilds(state: Overrides, styles: Seq<Style>)
    requires
        state.ends_with(styles),
    ensures
        state == state.exited(styles).entered(styles),
{
    let rebuilt = state.exited(styles).entered(styles);
    assert(rebuilt.configs =~= state.configs);
    assert(rebuilt.colors =~= state.colors);
}

/// Leaving a scope undoes entering it: the scope's overrides are the most
/// recent ones right after it was entered, and once they are reverted the
/// overrides are those from before.
pub proof fn lemma_exit_undoes_enter(state: Overrides, styles: Seq<Style>)
    ensures
        state.entered(styles).ends_with(styles),
        state.entered(styles).exited(styles) == state,
{
    let inside = state.entered(styles);
    assert(inside.configs.skip(inside.configs.len() - configs_of(styles).len()) =~= configs_of(
        styles,
    ));
    assert(inside.colors.skip(inside.colors.len() - colors_of(styles).len()) =~= colors_of(styles));
    assert(inside.exited(styles).configs =~= state.configs);
    assert(inside.exited(styles).colors =~= state.colors);
}

/// The overrides inside the innermost of `scopes`, which were opened one
/// inside the other, the outermost first, on `state`.
pub open spec fn nested_in(state: Overrides, scopes: Seq<Seq<Style>>) -> Overrides
    decreases scopes.len(),
{
    if scopes.len() == 0 {
        state
    } else {
        nested_in(state, scopes.drop_last()).entered(scopes.last())
    }
}

/// The overrides after all of `scopes` have returned, the innermost first,
/// where `state` was seen inside the innermost.
pub open spec fn unwound_from(state: Overrides, scopes: Seq<Seq<Style>>) -> Overrides
    decreases scopes.len(),
{
    if scopes.len() == 0 {
        state
    } else {
        unwound_from(state.exited(scopes.last()), scopes.drop_last())
    }
}

/// Stack discipline at every depth: however many scopes are opened one inside
/// the other, once they have all returned the overrides are those from before
/// the outermost was entered.
pub proof fn lemma_nested_scopes_restore(state: Overrides, scopes: Seq<Seq<Style>>)
    ensures
        unwound_from(nested_in(state, scopes), scopes) == state,
    decreases scopes.len(),
{
    if scopes.len() > 0 {
        lemma_exit_undoes_enter(nested_in(state, scopes.drop_last()), scopes.last());
        lemma_nested_scopes_restore(state, scopes.drop_last());
    }
}

/// Read in order, the overrides that a scope reports as reverted are those
/// that it reports as applied, read backwards.
pub proof fn lemma_pops_mirror_pushes(styles: Seq<Style>)
    ensures
        popped(styles).len() == pushed(styles).len(),
        forall|i: int| 0 <= i < styles.len() ==> #[trigger] pushed(styles)[i] is Pushed,
        forall|i: int| 0 <= i < styles.len() ==> #[trigger] popped(styles)[i] is Popped,
        popped(styles).map_values(|e: Event| e.style()) == pushed(styles).map_values(
            |e: Event| e.style(),
        ).reverse(),
{
}

/// Isolation of an inner scope. While it is active, the overrides of the
/// scopes around it lie unchanged beneath its own. Once it has returned, its
/// own are gone and those of the scope around it are the most recent again.
pub proof fn lemma_inner_scope_isolated(state: Overrides, outer: Seq<Style>, inner: Seq<Style>)
    ensures
        state.entered(outer).configs.is_prefix_of(state.entered(outer).entered(inner).configs),
        state.entered(outer).colors.is_prefix_of(state.entered(outer).entered(inner).colors),
        state.entered(outer).entered(inner).exited(inner) == state.entered(outer),
        state.entered(outer).entered(inner).exited(inner).ends_with(outer),
{
    lemma_exit_undoes_enter(state.entered(outer), inner);
    lemma_exit_undoes_enter(state, outer);
}

/// A scope without overrides changes nothing: the overrides inside it and
/// after it are those from before, and it adds nothing to the history.
pub proof fn lemma_empty_scope(state: Overrides)
    ensures
        state.entered(Seq::empty()) == state,
        state.exited(Seq::empty()) == state,
        pushed(Seq::empty()) == Seq::<Event>::empty(),
        popped(Seq::empty()) == Seq::<Event>::empty(),
{
    let nothing = Seq::<Style>::empty();
    assert(state.exited(nothing).configs =~= state.configs);
    assert(state.exited(nothing).colors =~= state.colors);
}

} // verus!
