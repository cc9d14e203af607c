//! The boundary to Dear ImGui: the types of `imgui` that pass through this
//! library, and the calls that apply and revert one override. Nothing in this
//! file is proved; the calls change the style state that Dear ImGui keeps for
//! the current context, which no contract here can speak of.

use vstd::prelude::*;

verus! {

/// `imgui::Ui`, the handle through which one frame's interface is built.
#[verifier::external_type_specification]
#[verifier::external_body]
pub struct ExUi(imgui::Ui);

/// `imgui::StyleVar`, a layout or sizing property together with its new value.
#[verifier::external_type_specification]
#[verifier::external_body]
pub struct ExStyleVar(imgui::StyleVar);

/// `imgui::StyleColor`, the name of a color slot.
#[verifier::external_type_specification]
#[verifier::external_body]
pub struct ExStyleColor(imgui::StyleColor);

/// `imgui::sys::ImVec4`, four channel values; used here for RGBA colors.
#[verifier::external_type_specification]
#[verifier::external_body]
pub struct ExImVec4(imgui::sys::ImVec4);

/// `imgui::StyleStackToken`, handed out for each pushed style variable.
#[verifier::external_type_specification]
#[verifier::external_body]
pub struct ExStyleStackToken<'ui>(imgui::StyleStackToken<'ui>);

/// `imgui::ColorStackToken`, handed out for each pushed style color.
#[verifier::external_type_specification]
#[verifier::external_body]
pub struct ExColorStackToken<'ui>(imgui::ColorStackToken<'ui>);

/// Calls `imgui::Ui::push_style_var`, which puts `var` on top of Dear ImGui's
/// style-variable stack. Nothing is claimed of the token that comes back.
#[verifier::external_body]
pub(crate) fn push_style_var<'ui>(
    ui: &'ui imgui::Ui,
    var: imgui::StyleVar,
) -> (token: imgui::StyleStackToken<'ui>) {
    ui.push_style_var(var)
}

/// Calls `imgui::Ui::push_style_color`, which puts `color` for `slot` on top of
/// Dear ImGui's color stack. Nothing is claimed of the token that comes back.
#[verifier::external_body]
pub(crate) fn push_style_color<'ui>(
    ui: &'ui imgui::Ui,
    slot: imgui::StyleColor,
    color: imgui::sys::ImVec4,
) -> (token: imgui::ColorStackToken<'ui>) {
    ui.push_style_color(slot, <[_; 4]>::from(color))
}

/// Calls `imgui::StyleStackToken::end`, which removes the top of Dear ImGui's
/// style-variable stack.
#[verifier::external_body]
pub(crate) fn pop_style_var<'ui>(token: imgui::StyleStackToken<'ui>) {
    token.end()
}

/// Calls `imgui::ColorStackToken::end`, which removes the top of Dear ImGui's
/// color stack.
#[verifier::external_body]
pub(crate) fn pop_style_color<'ui>(token: imgui::ColorStackToken<'ui>) {
    token.end()
}

} // verus!
