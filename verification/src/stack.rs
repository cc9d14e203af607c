//! The override stack: a record, kept beside Dear ImGui's own style state, of
//! the overrides that are active and of every application and reversion so far.

use crate::gui::pop_style_color;
use crate::gui::pop_style_var;
use crate::gui::push_style_color;
use crate::gui::push_style_var;
use crate::laws::lemma_colors_of_take;
use crate::laws::lemma_configs_of_take;
use crate::laws::lemma_ends_with_rebuilds;
use crate::style::colors_of;
use crate::style::configs_of;
use crate::style::popped;
use crate::style::pushed;
use crate::style::Event;
use crate::style::Style;
use vstd::prelude::*;

verus! {

/// The overrides that are active at one moment: two sequences, one per kind,
/// each in the order in which its entries were applied. The last entry of a
/// sequence is the one applied most recently.
pub struct Overrides {
    pub configs: Seq<imgui::StyleVar>,
    pub colors: Seq<(imgui::StyleColor, imgui::sys::ImVec4)>,
}

impl Overrides {
    /// No override is active.
    pub open spec fn none() -> Overrides {
        Overrides { configs: Seq::empty(), colors: Seq::empty() }
    }

    /// The overrides after one more has been applied.
    pub open spec fn with(self, style: Style) -> Overrides {
        match style {
            Style::Config(var) => Overrides { configs: self.configs.push(var), colors: self.colors },
            Style::Color(slot, color) => Overrides {
                configs: self.configs,
                colors: self.colors.push((slot, color)),
            },
        }
    }

    /// The overrides inside a scope: those that were active outside, and on top
    /// of them the scope's own, each kind in the order of `styles`.
    pub open spec fn entered(self, styles: Seq<Style>) -> Overrides {
        Overrides {
            configs: self.configs + configs_of(styles),
            colors: self.colors + colors_of(styles),
        }
    }

    /// Whether the most recent overrides of each kind are exactly those of
    /// `styles`.
    pub open spec fn ends_with(self, styles: Seq<Style>) -> bool {
        let n = configs_of(styles).len();
        let m = colors_of(styles).len();
        &&& n <= self.configs.len()
        &&& m <= self.colors.len()
        &&& self.configs.skip(self.configs.len() - n) == configs_of(styles)
        &&& self.colors.skip(self.colors.len() - m) == colors_of(styles)
    }

    /// The overrides after a scope with `styles` has reverted its own: as many
    /// entries of each kind are gone as the scope had applied.
    pub open spec fn exited(self, styles: Seq<Style>) -> Overrides
        recommends
            self.ends_with(styles),
    {
        Overrides {
            configs: self.configs.take(self.configs.len() - configs_of(styles).len()),
            colors: self.colors.take(self.colors.len() - colors_of(styles).len()),
        }
    }
}

/// An applied configuration override and the token that reverts it.
struct ConfigEntry<'ui> {
    var: imgui::StyleVar,
    token: imgui::StyleStackToken<'ui>,
}

/// An applied color override and the token that reverts it.
struct ColorEntry<'ui> {
    slot: imgui::StyleColor,
    color: imgui::sys::ImVec4,
    token: imgui::ColorStackToken<'ui>,
}

/// The overrides applied through this library during one frame.
///
/// It holds one sub-stack per kind of override. Every application and every
/// reversion is also appended to a history that is never shortened.
pub struct OverrideStack<'ui> {
    ui: &'ui imgui::Ui,
    configs: Vec<ConfigEntry<'ui>>,
    colors: Vec<ColorEntry<'ui>>,
    trace: Vec<Event>,
}

impl<'ui> View for OverrideStack<'ui> {
    type V = Overrides;

    /// The overrides that are active.
    closed spec fn view(&self) -> Overrides {
        Overrides {
            configs: self.configs@.map_values(|e: ConfigEntry<'ui>| e.var),
            colors: self.colors@.map_values(|e: ColorEntry<'ui>| (e.slot, e.color)),
        }
    }
}

impl<'ui> OverrideStack<'ui> {
    /// Every application and reversion so far, oldest first.
    pub closed spec fn trace(&self) -> Seq<Event> {
        self.trace@
    }

    /// An override stack for the frame that `ui` builds, with no override
    /// active and an empty history.
    pub fn new(ui: &'ui imgui::Ui) -> (stack: Self)
        ensures
            stack@ == Overrides::none(),
            stack.trace() == Seq::<Event>::empty(),
    {
        let stack = OverrideStack { ui, configs: Vec::new(), colors: Vec::new(), trace: Vec::new() };
        assert(stack@.configs =~= Seq::empty());
        assert(stack@.colors =~= Seq::empty());
        stack
    }

    /// Applies one override and records it.
    pub(crate) fn push(&mut self, style: Style)
        ensures
            final(self)@ == old(self)@.with(style),
            final(self).trace() == old(self).trace().push(Event::Pushed(style)),
    {
        match style {
            Style::Config(var) => {
                let token = push_style_var(self.ui, var);
                self.configs.push(ConfigEntry { var, token });
                assert(self@.configs =~= old(self)@.configs.push(var));
            },
            Style::Color(slot, color) => {
                let token = push_style_color(self.ui, slot, color);
                self.colors.push(ColorEntry { slot, color, token });
                assert(self@.colors =~= old(self)@.colors.push((slot, color)));
            },
        }
        self.trace.push(Event::Pushed(style));
    }

    /// Reverts the most recent configuration override and records it.
    pub(crate) fn pop_config(&mut self)
        requires
            old(self)@.configs.len() > 0,
        ensures
            final(self)@.configs == old(self)@.configs.drop_last(),
            final(self)@.colors == old(self)@.colors,
            final(self).trace() == old(self).trace().push(
                Event::Popped(Style::Config(old(self)@.configs.last())),
            ),
    {
        match self.configs.pop() {
            Some(entry) => {
                pop_style_var(entry.token);
                self.trace.push(Event::Popped(Style::Config(entry.var)));
            },
            None => {},
        }
    }

    /// Reverts the most recent color override and records it.
    pub(crate) fn pop_color(&mut self)
        requires
            old(self)@.colors.len() > 0,
        ensures
            final(self)@.configs == old(self)@.configs,
            final(self)@.colors == old(self)@.colors.drop_last(),
            final(self).trace() == old(self).trace().push(
                Event::Popped(Style::Color(old(self)@.colors.last().0, old(self)@.colors.last().1)),
            ),
    {
        match self.colors.pop() {
            Some(entry) => {
                pop_style_color(entry.token);
                self.trace.push(Event::Popped(Style::Color(entry.slot, entry.color)));
            },
            None => {},
        }
    }

    /// Applies the overrides of a scope, in the order given.
    pub(crate) fn enter(&mut self, styles: &Vec<Style>)
        ensures
            final(self)@ == old(self)@.entered(styles@),
            final(self).trace() == old(self).trace() + pushed(styles@),
    {
        let n = styles.len();
        let mut i: usize = 0;
        while i < n
            invariant
                n == styles.len(),
                i <= n,
                self@ == old(self)@.entered(styles@.take(i as int)),
                self.trace() == old(self).trace() + pushed(styles@).take(i as int),
            decreases n - i,
        {
            self.push(styles[i]);
            proof {
                lemma_configs_of_take(styles@, i as int + 1);
                lemma_colors_of_take(styles@, i as int + 1);
            }
            i += 1;
        }
        assert(styles@.take(n as int) =~= styles@);
    }

    /// Reverts the overrides of a scope, the last one first.
    pub(crate) fn exit(&mut self, styles: &Vec<Style>)
        requires
            old(self)@.ends_with(styles@),
        ensures
            final(self)@ == old(self)@.exited(styles@),
            final(self).trace() == old(self).trace() + popped(styles@),
    {
        let n = styles.len();
        let mut i: usize = n;
        let ghost base = old(self)@.exited(styles@);
        proof {
            lemma_ends_with_rebuilds(old(self)@, styles@);
            assert(styles@.take(n as int) =~= styles@);
        }
        while i > 0
            invariant
                n == styles.len(),
                i <= n,
                base == old(self)@.exited(styles@),
                self@ == base.entered(styles@.take(i as int)),
                self.trace() == old(self).trace() + popped(styles@).take(n - i),
            decreases i,
        {
            i -= 1;
            proof {
                lemma_configs_of_take(styles@, i as int + 1);
                lemma_colors_of_take(styles@, i as int + 1);
            }
            match styles[i] {
                Style::Config(_) => {
                    self.pop_config();
                },
                Style::Color(_, _) => {
                    self.pop_color();
                },
            }
            proof {
                let next = base.entered(styles@.take(i as int));
                assert(self@.configs =~= next.configs);
                assert(self@.colors =~= next.colors);
            }
        }
    }

    /// The active configuration overrides, the most recent one last.
    pub fn configs(&self) -> (active: Vec<imgui::StyleVar>)
        ensures
            active@ == self@.configs,
    {
        let n = self.configs.len();
        let mut active: Vec<imgui::StyleVar> = Vec::new();
        let mut i: usize = 0;
        while i < n
            invariant
                n == self.configs@.len(),
                i <= n,
                active@ == self@.configs.take(i as int),
            decreases n - i,
        {
            active.push(self.configs[i].var);
            i += 1;
        }
        active
    }

    /// The active color overrides, the most recent one last.
    pub fn colors(&self) -> (active: Vec<(imgui::StyleColor, imgui::sys::ImVec4)>)
        ensures
            active@ == self@.colors,
    {
        let n = self.colors.len();
        let mut active: Vec<(imgui::StyleColor, imgui::sys::ImVec4)> = Vec::new();
        let mut i: usize = 0;
        while i < n
            invariant
                n == self.colors@.len(),
                i <= n,
                active@ == self@.colors.take(i as int),
            decreases n - i,
        {
            active.push((self.colors[i].slot, self.colors[i].color));
            i += 1;
        }
        active
    }

    /// How many configuration overrides are active.
    pub fn config_depth(&self) -> (n: usize)
        ensures
            n == self@.configs.len(),
    {
        self.configs.len()
    }

    /// How many color overrides are active.
    pub fn color_depth(&self) -> (n: usize)
        ensures
            n == self@.colors.len(),
    {
        self.colors.len()
    }

    /// Whether no override is active.
    pub fn is_empty(&self) -> (b: bool)
        ensures
            b == (self@ == Overrides::none()),
    {
        let b = self.configs.len() == 0 && self.colors.len() == 0;
        proof {
            assert(self@.configs.len() == self.configs@.len());
            assert(self@.colors.len() == self.colors@.len());
            if b {
                assert(self@.configs =~= Seq::empty());
                assert(self@.colors =~= Seq::empty());
            }
        }
        b
    }

    /// Every application and reversion so far, oldest first.
    pub fn events(&self) -> (events: &Vec<Event>)
        ensures
            events@ == self.trace(),
    {
        &self.trace
    }
}

} // verus!
