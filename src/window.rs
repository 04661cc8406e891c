use vstd::prelude::*;
use vstd::string::StringExecFns;

use crate::script::{init_script, init_script_text};
use crate::text::same_text;

verus! {

/// The windows the shell manages, one OS window at most for each.
#[derive(Clone, Copy, Debug, PartialEq, Eq, Structural)]
pub enum WindowName {
    Chat,
    World,
    Settings,
    Zen,
}

/// Where window content is loaded from: the live development server or the
/// resources bundled with the application.
#[derive(Clone, Copy, Debug, PartialEq, Eq, Structural)]
pub enum ContentSource {
    DevServer,
    Bundled,
}

/// The label under which the host registers a window.
pub open spec fn label_text(name: WindowName) -> Seq<char> {
    match name {
        WindowName::Chat => "chat"@,
        WindowName::World => "world"@,
        WindowName::Settings => "settings"@,
        WindowName::Zen => "zen-mode"@,
    }
}

/// The managed window that a host label names, if any.
pub open spec fn window_for_label(label: Seq<char>) -> Option<WindowName> {
    if label == "chat"@ {
        Some(WindowName::Chat)
    } else if label == "world"@ {
        Some(WindowName::World)
    } else if label == "settings"@ {
        Some(WindowName::Settings)
    } else if label == "zen-mode"@ {
        Some(WindowName::Zen)
    } else {
        None
    }
}

pub open spec fn title_text(name: WindowName) -> Seq<char> {
    match name {
        WindowName::Chat => "CrewHub Chat"@,
        WindowName::World => "CrewHub 3D World"@,
        WindowName::Settings => "CrewHub Settings"@,
        WindowName::Zen => "Zen Mode"@,
    }
}

/// Initial inner size, width then height, in logical pixels.
pub open spec fn inner_size(name: WindowName) -> (u32, u32) {
    match name {
        WindowName::Chat => (390, 700),
        WindowName::World => (1280, 900),
        WindowName::Settings => (420, 280),
        WindowName::Zen => (820, 920),
    }
}

/// Smallest inner size the user may resize to; the settings window has a fixed size.
pub open spec fn min_inner_size(name: WindowName) -> Option<(u32, u32)> {
    match name {
        WindowName::Chat => Some((320, 500)),
        WindowName::World => Some((900, 600)),
        WindowName::Settings => None,
        WindowName::Zen => Some((600, 500)),
    }
}

pub open spec fn is_resizable(name: WindowName) -> bool {
    name != WindowName::Settings
}

pub open spec fn stays_on_top(name: WindowName) -> bool {
    name == WindowName::Settings
}

pub open spec fn skips_taskbar(name: WindowName) -> bool {
    name == WindowName::Chat || name == WindowName::Settings
}

/// The page a window loads, for each content source.
pub open spec fn url_text(name: WindowName, source: ContentSource) -> Seq<char> {
    let base = match source {
        ContentSource::DevServer => "http://localhost:5180/"@,
        ContentSource::Bundled => "index.html"@,
    };
    let query = match name {
        WindowName::Settings => "?view=settings"@,
        WindowName::Zen => "?mode=zen"@,
        _ => Seq::<char>::empty(),
    };
    base + query
}

/// Everything the host needs to build one window.
pub struct WindowSpec {
    pub name: WindowName,
    pub title: String,
    pub width: u32,
    pub height: u32,
    pub min_size: Option<(u32, u32)>,
    pub resizable: bool,
    pub decorations: bool,
    pub always_on_top: bool,
    pub skip_taskbar: bool,
    pub url: String,
    /// Script run before the page's own scripts.
    pub init_script: String,
}

/// `ws` is the build description of window `name` for the given content
/// source and backend address.
pub open spec fn describes(
    ws: WindowSpec,
    name: WindowName,
    source: ContentSource,
    backend: Seq<char>,
) -> bool {
    &&& ws.name == name
    &&& ws.title@ == title_text(name)
    &&& (ws.width, ws.height) == inner_size(name)
    &&& ws.min_size == min_inner_size(name)
    &&& ws.resizable == is_resizable(name)
    &&& ws.decorations
    &&& ws.always_on_top == stays_on_top(name)
    &&& ws.skip_taskbar == skips_taskbar(name)
    &&& ws.url@ == url_text(name, source)
    &&& ws.init_script@ == init_script_text(name, backend)
}

impl WindowName {
    pub fn label(&self) -> (r: &'static str)
        ensures
            r@ == label_text(*self),
    {
        match self {
            WindowName::Chat => "chat",
            WindowName::World => "world",
            WindowName::Settings => "settings",
            WindowName::Zen => "zen-mode",
        }
    }

    /// The managed window registered under `label`, if any.
    pub fn from_label(label: &str) -> (r: Option<WindowName>)
        ensures
            r == window_for_label(label@),
    {
        if same_text(label, "chat") {
            Some(WindowName::Chat)
        } else if same_text(label, "world") {
            Some(WindowName::World)
        } else if same_text(label, "settings") {
            Some(WindowName::Settings)
        } else if same_text(label, "zen-mode") {
            Some(WindowName::Zen)
        } else {
            None
        }
    }
}

pub fn window_url(name: WindowName, source: ContentSource) -> (r: String)
    ensures
        r@ == url_text(name, source),
{
    let mut s = match source {
        ContentSource::DevServer => String::from_str("http://localhost:5180/"),
        ContentSource::Bundled => String::from_str("index.html"),
    };
    match name {
        WindowName::Settings => s.append("?view=settings"),
        WindowName::Zen => s.append("?mode=zen"),
        _ => {
            assert(s@ =~= s@ + Seq::<char>::empty());
        },
    }
    s
}

/// The build description of window `name`.
pub fn window_spec(name: WindowName, source: ContentSource, backend_url: &str) -> (r: WindowSpec)
    ensures
        describes(r, name, source, backend_url@),
{
    let (title, width, height, min_size) = match name {
        WindowName::Chat => ("CrewHub Chat", 390u32, 700u32, Some((320u32, 500u32))),
        WindowName::World => ("CrewHub 3D World", 1280, 900, Some((900, 600))),
        WindowName::Settings => ("CrewHub Settings", 420, 280, None),
        WindowName::Zen => ("Zen Mode", 820, 920, Some((600, 500))),
    };
    let settings = name == WindowName::Settings;
    WindowSpec {
        name,
        title: String::from_str(title),
        width,
        height,
        min_size,
        resizable: !settings,
        decorations: true,
        always_on_top: settings,
        skip_taskbar: settings || name == WindowName::Chat,
        url: window_url(name, source),
        init_script: init_script(name, backend_url),
    }
}

} // verus!
