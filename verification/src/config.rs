//! How the projection window is presented. None of this is configurable.

use vstd::prelude::*;
use vstd::string::*;

verus! {

/// The settings a window is constructed with.
#[derive(Clone, Debug, PartialEq, Eq)]
pub struct WindowConfig {
    /// The identifier under which the host registers the window.
    pub label: String,
    /// The document the window loads, relative to the application's content
    /// root.
    pub url: String,
    /// The window's title.
    pub title: String,
    /// Whether the window covers the whole screen.
    pub fullscreen: bool,
    /// Whether the window has a frame and a title bar.
    pub decorations: bool,
    /// Whether the window is rendered above all others.
    pub always_on_top: bool,
}

/// The mathematical value of a [`WindowConfig`].
pub struct WindowConfigView {
    pub label: Seq<char>,
    pub url: Seq<char>,
    pub title: Seq<char>,
    pub fullscreen: bool,
    pub decorations: bool,
    pub always_on_top: bool,
}

impl View for WindowConfig {
    type V = WindowConfigView;

    open spec fn view(&self) -> WindowConfigView {
        WindowConfigView {
            label: self.label@,
            url: self.url@,
            title: self.title@,
            fullscreen: self.fullscreen,
            decorations: self.decorations,
            always_on_top: self.always_on_top,
        }
    }
}

/// The identifier of the projection window in the host's registry.
pub open spec fn projection_label_text() -> Seq<char> {
    "projection"@
}

/// The settings of the projection window: full screen, without decorations,
/// above all other windows, showing the application's entry document.
pub open spec fn projection_config() -> WindowConfigView {
    WindowConfigView {
        label: projection_label_text(),
        url: "index.html"@,
        title: "Timer Projection"@,
        fullscreen: true,
        decorations: false,
        always_on_top: true,
    }
}

/// The identifier to look the projection window up by.
pub fn projection_label() -> (label: &'static str)
    ensures
        label@ == projection_label_text(),
{
    "projection"
}

/// The settings to construct the projection window with.
pub fn projection_window_config() -> (config: WindowConfig)
    ensures
        config@ == projection_config(),
{
    WindowConfig {
        label: String::from_str(projection_label()),
        url: String::from_str("index.html"),
        title: String::from_str("Timer Projection"),
        fullscreen: true,
        decorations: false,
        always_on_top: true,
    }
}

} // verus!
