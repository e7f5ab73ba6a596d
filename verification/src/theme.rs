//! The style selectors of the launcher's presentation layer. Only the
//! choices themselves live here, as plain data; how each one is drawn is the
//! user interface's business.
use vstd::prelude::*;

verus! {

/// The launcher's colour theme.
#[derive(Debug, Clone, Copy, Default)]
pub struct Theme;

/// Text styles.
#[derive(Debug, Clone, Copy, Default)]
pub enum Text {
    #[default]
    Default,
    Peach,
    Green,
    Red,
}

/// Container styles.
#[derive(Debug, Clone, Copy, Default)]
pub enum Container {
    #[default]
    Default,
    BlackContainer,
}

/// Button styles.
#[derive(Debug, Clone, Copy, Default)]
pub enum Button {
    #[default]
    Primary,
    Secondary,
    Red,
    Transparent,
}

/// Text input styles.
#[derive(Debug, Clone, Copy, Default)]
pub enum TextInput {
    #[default]
    Default,
}

/// Pick list styles.
#[derive(Debug, Clone, Copy, Default)]
pub enum PickList {
    #[default]
    Default,
}

/// Vector graphic styles.
#[derive(Debug, Clone, Copy, Default)]
pub enum Svg {
    #[default]
    Default,
}

/// Slider styles.
#[derive(Debug, Clone, Copy, Default)]
pub enum Slider {
    #[default]
    Default,
}

/// Menu styles.
#[derive(Debug, Clone, Copy, Default)]
pub enum Menu {
    #[default]
    Default,
}

/// Scroll area styles.
#[derive(Debug, Clone, Copy, Default)]
pub enum Scrollable {
    #[default]
    Default,
}

/// Toggle styles.
#[derive(Debug, Clone, Copy, Default)]
pub enum Toggler {
    #[default]
    Default,
}

} // verus!
