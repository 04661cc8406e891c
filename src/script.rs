use vstd::prelude::*;
use vstd::string::StringExecFns;

use crate::window::WindowName;

verus! {

/// Backend address used when none is configured.
pub open spec fn default_backend_text() -> Seq<char> {
    "http://localhost:8091"@
}

/// The part shared by the chat, world and zen scripts: it publishes the
/// backend address and marks onboarding as done.
pub open spec fn base_init_text(backend: Seq<char>) -> Seq<char> {
    "window.__CREWHUB_BACKEND_URL__ = '"@ + backend
        + "'; localStorage.setItem('crewhub-onboarded', 'true');"@
}

/// The script that declares a window's view mode before its page loads.
pub open spec fn init_script_text(name: WindowName, backend: Seq<char>) -> Seq<char> {
    match name {
        WindowName::Chat => "window.__TAURI_VIEW__ = 'mobile'; "@ + base_init_text(backend),
        WindowName::World => "window.__TAURI_VIEW__ = 'desktop'; "@ + base_init_text(backend),
        WindowName::Settings => "window.__TAURI_VIEW__ = 'settings'; window.__CREWHUB_BACKEND_URL__ = '"@
            + backend + "';"@,
        WindowName::Zen => "window.__TAURI_VIEW__ = 'zen'; "@ + base_init_text(backend),
    }
}

/// The backend address: the configured one if there is one, else the default.
pub fn backend_url(configured: Option<String>) -> (r: String)
    ensures
        r@ == match configured {
            Some(s) => s@,
            None => default_backend_text(),
        },
{
    match configured {
        Some(s) => s,
        None => String::from_str("http://localhost:8091"),
    }
}

pub fn base_init(backend_url: &str) -> (r: String)
    ensures
        r@ == base_init_text(backend_url@),
{
    let mut s = String::from_str("window.__CREWHUB_BACKEND_URL__ = '");
    s.append(backend_url);
    s.append("'; localStorage.setItem('crewhub-onboarded', 'true');");
    s
}

fn with_view(prefix: &str, backend_url: &str) -> (r: String)
    ensures
        r@ == prefix@ + base_init_text(backend_url@),
{
    let mut s = String::from_str(prefix);
    let base = base_init(backend_url);
    s.append(base.as_str());
    assert(s@ =~= prefix@ + base_init_text(backend_url@));
    s
}

pub fn chat_init_script(backend_url: &str) -> (r: String)
    ensures
        r@ == init_script_text(WindowName::Chat, backend_url@),
{
    with_view("window.__TAURI_VIEW__ = 'mobile'; ", backend_url)
}

pub fn world_init_script(backend_url: &str) -> (r: String)
    ensures
        r@ == init_script_text(WindowName::World, backend_url@),
{
    with_view("window.__TAURI_VIEW__ = 'desktop'; ", backend_url)
}

pub fn settings_init_script(backend_url: &str) -> (r: String)
    ensures
        r@ == init_script_text(WindowName::Settings, backend_url@),
{
    let mut s = String::from_str(
        "window.__TAURI_VIEW__ = 'settings'; window.__CREWHUB_BACKEND_URL__ = '",
    );
    s.append(backend_url);
    s.append("';");
    s
}

pub fn zen_init_script(backend_url: &str) -> (r: String)
    ensures
        r@ == init_script_text(WindowName::Zen, backend_url@),
{
    with_view("window.__TAURI_VIEW__ = 'zen'; ", backend_url)
}

/// The script injected into window `name` before its page loads.
pub fn init_script(name: WindowName, backend_url: &str) -> (r: String)
    ensures
        r@ == init_script_text(name, backend_url@),
{
    match name {
        WindowName::Chat => chat_init_script(backend_url),
        WindowName::World => world_init_script(backend_url),
        WindowName::Settings => settings_init_script(backend_url),
        WindowName::Zen => zen_init_script(backend_url),
    }
}

} // verus!
