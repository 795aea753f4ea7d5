//! Window activation: among the top-level windows of the desktop, find the
//! one that belongs to the running instance, and say how to bring it to the
//! front.
//!
//! Enumerating the windows and showing one are the caller's work.  This
//! module judges titles and window classes and picks the window.

use vstd::prelude::*;
use vstd::string::StringSliceAdditionalSpecFns;
use vstd::utf8::encode_utf8;
use crate::text::{
    ByteClass, begins_with, contains, has_prefix, includes, is_space, matches_at, occurs_at,
    same_bytes,
};

verus! {

/// The title that the managed application gives its window.
pub open spec fn app_title() -> Seq<u8> {
    "YakuLingo".spec_bytes()
}

/// What the titles of installer windows begin with, in front of the
/// application's title.
pub open spec fn installer_prefix() -> Seq<u8> {
    "Setup - ".spec_bytes()
}

/// How long the launcher waits for the application's window to appear, in
/// milliseconds.
pub const WINDOW_WAIT_CEILING_MS: u64 = 30_000;

/// The pause between two looks for the application's window, in
/// milliseconds.
pub const WINDOW_POLL_INTERVAL_MS: u64 = 100;

/// Whether a window class belongs to the file manager, whose windows show
/// folder names that may contain the application's name.
pub open spec fn is_shell_class(class_name: Seq<u8>) -> bool {
    class_name == "CabinetWClass".spec_bytes() || class_name == "ExploreWClass".spec_bytes()
}

/// Whether a title that begins with `base` goes on as another word: it is
/// longer than `base`, and what follows `base` is not white space.
pub open spec fn runs_on_after(base: Seq<u8>, title: Seq<u8>) -> bool {
    &&& has_prefix(title, base)
    &&& title.len() > base.len()
    &&& !is_space(title[base.len() as int])
}

/// Whether a title is that of an installer of the application `base`.
pub open spec fn is_installer_title(base: Seq<u8>, title: Seq<u8>) -> bool {
    &&& has_prefix(title, installer_prefix())
    &&& matches_at(title, base, installer_prefix().len() as int)
}

/// Whether `title` is the title of a window of the application whose title
/// is `base`.  The title names the application; it does not merely begin
/// with its name, as `base` followed by more letters would; and it is not
/// the title of the application's installer.
pub open spec fn title_names(base: Seq<u8>, title: Seq<u8>) -> bool {
    &&& title.len() > 0
    &&& contains(title, base)
    &&& !runs_on_after(base, title)
    &&& !is_installer_title(base, title)
}

/// A top-level window, as far as the choice depends on it.
#[derive(Debug, PartialEq, Eq)]
pub struct WindowInfo {
    /// The window's title.
    pub title: String,
    /// The name of the window's class.
    pub class_name: String,
    /// Whether the window is minimized.
    pub minimized: bool,
    /// Whether the window is the foreground window.
    pub foreground: bool,
}

impl WindowInfo {
    /// Whether the window belongs to the managed application.
    pub open spec fn is_genuine(self) -> bool {
        &&& title_names(app_title(), encode_utf8(self.title@))
        &&& !is_shell_class(encode_utf8(self.class_name@))
    }
}

/// How a window is shown.
#[derive(Clone, Copy, Debug, PartialEq, Eq, Structural)]
pub enum ShowCommand {
    /// Restore a minimized window to its former place and size.
    Restore,
    /// Show the window where it is.
    Show,
}

/// What to do to bring a window to the front.
#[derive(Clone, Copy, Debug, PartialEq, Eq, Structural)]
pub struct Activation {
    /// The window's index in the enumeration.
    pub index: usize,
    /// How to show the window.
    pub show: ShowCommand,
    /// Whether to ask for the foreground: not where the window has it.
    pub request_foreground: bool,
}

/// The first window of the managed application among `windows`, and how to
/// bring it to the front.
pub open spec fn activation_for(windows: Seq<WindowInfo>) -> Option<Activation>
    decreases windows.len(),
{
    if windows.len() == 0 {
        None
    } else {
        match activation_for(windows.drop_last()) {
            Some(earlier) => Some(earlier),
            None => if windows.last().is_genuine() {
                Some(
                    Activation {
                        index: (windows.len() - 1) as usize,
                        show: if windows.last().minimized {
                            ShowCommand::Restore
                        } else {
                            ShowCommand::Show
                        },
                        request_foreground: !windows.last().foreground,
                    },
                )
            } else {
                None
            },
        }
    }
}

/// Whether `title` goes on after `base` as another word.
pub fn title_runs_on(base: &[u8], title: &[u8]) -> (r: bool)
    ensures
        r == runs_on_after(base@, title@),
{
    if !begins_with(title, base) || title.len() <= base.len() {
        return false;
    }
    !ByteClass::Space.admits(title[base.len()])
}

/// Whether `title` is the title of a window of the application whose title
/// is `base`.
pub fn title_matches(base: &str, title: &str) -> (r: bool)
    ensures
        r == title_names(base.spec_bytes(), title.spec_bytes()),
{
    let base_bytes = base.as_bytes();
    let title_bytes = title.as_bytes();
    let setup = "Setup - ".as_bytes();
    if title_bytes.len() == 0 || !includes(title_bytes, base_bytes) {
        return false;
    }
    if title_runs_on(base_bytes, title_bytes) {
        return false;
    }
    !(begins_with(title_bytes, setup) && occurs_at(title_bytes, base_bytes, setup.len()))
}

/// Whether the window class `class_name` belongs to the file manager.
pub fn is_excluded_class(class_name: &str) -> (r: bool)
    ensures
        r == is_shell_class(class_name.spec_bytes()),
{
    let name = class_name.as_bytes();
    same_bytes(name, "CabinetWClass".as_bytes()) || same_bytes(name, "ExploreWClass".as_bytes())
}

/// Whether `window` belongs to the managed application.
pub fn is_app_window(window: &WindowInfo) -> (r: bool)
    ensures
        r == window.is_genuine(),
{
    title_matches("YakuLingo", window.title.as_str()) && !is_excluded_class(
        window.class_name.as_str(),
    )
}

/// Picks the window to bring to the front: the first of `windows`, in the
/// order of the enumeration, that belongs to the managed application.  A
/// minimized window is restored, any other is shown as it is, and the
/// foreground is asked for unless the window has it.  `None` where no window
/// belongs to the application.
pub fn bring_window_to_front(windows: &Vec<WindowInfo>) -> (r: Option<Activation>)
    ensures
        r == activation_for(windows@),
        match r {
            Some(found) => {
                &&& found.index < windows@.len()
                &&& windows@[found.index as int].is_genuine()
                &&& forall|j: int| 0 <= j < found.index ==> !windows@[j].is_genuine()
                &&& found.show == ShowCommand::Restore <==> windows@[found.index as int].minimized
                &&& found.request_foreground == !windows@[found.index as int].foreground
            },
            None => forall|j: int| 0 <= j < windows@.len() ==> !windows@[j].is_genuine(),
        },
{
    let mut i: usize = 0;
    while i < windows.len()
        invariant
            i <= windows@.len(),
            activation_for(windows@.take(i as int)) is None,
            forall|j: int| 0 <= j < i ==> !windows@[j].is_genuine(),
        decreases windows@.len() - i,
    {
        proof {
            assert(windows@.take(i + 1).drop_last() =~= windows@.take(i as int));
            lemma_activation_extends(windows@.take(i + 1), windows@);
        }
        if is_app_window(&windows[i]) {
            let show = if windows[i].minimized {
                ShowCommand::Restore
            } else {
                ShowCommand::Show
            };
            return Some(Activation { index: i, show, request_foreground: !windows[i].foreground });
        }
        i += 1;
    }
    assert(windows@.take(windows@.len() as int) =~= windows@);
    None
}

/// A window once picked stays picked when more windows follow.
pub proof fn lemma_activation_extends(head: Seq<WindowInfo>, all: Seq<WindowInfo>)
    requires
        head.len() <= all.len(),
        head =~= all.take(head.len() as int),
    ensures
        activation_for(head) is Some ==> activation_for(all) == activation_for(head),
    decreases all.len(),
{
    if head.len() < all.len() {
        lemma_activation_extends(head, all.drop_last());
    } else {
        assert(head =~= all);
    }
}

/// The installer prefix is not empty.
proof fn lemma_installer_prefix_len()
    ensures
        installer_prefix().len() == 8,
{
    reveal_strlit("Setup - ");
    vstd::string::is_ascii_spec_bytes("Setup - ");
}

/// Matching at the boundary of the name.  A title that is the application's
/// name and nothing else names the application.  A title that goes on after
/// the name does so only where white space follows the name: with anything
/// else there, the title belongs to something else.
pub proof fn lemma_title_boundary(base: Seq<u8>, rest: Seq<u8>)
    requires
        base.len() > 0,
    ensures
        title_names(base, base),
        rest.len() > 0 && !is_space(rest[0]) ==> !title_names(base, base + rest),
        rest.len() > 0 && is_space(rest[0]) && !is_installer_title(base, base + rest)
            ==> title_names(base, base + rest),
{
    lemma_installer_prefix_len();
    let title = base + rest;
    assert(title.subrange(0, base.len() as int) =~= base);
    assert(base.subrange(0, base.len() as int) =~= base);
    assert(matches_at(base, base, 0));
    assert(matches_at(title, base, 0));
}

/// What the wait for the application's window does next.
#[derive(Clone, Copy, Debug, PartialEq, Eq, Structural)]
pub enum WaitStep {
    /// Look for the window.
    Probe,
    /// Sleep for this many milliseconds, then ask again.
    Sleep { millis: u64 },
    /// Stop waiting: the window is there, or the time is up.
    Finish,
}

/// The next step of the wait, `waited_ms` milliseconds after it began.
/// `looked` is `None` before a look, and after a look it says whether the
/// window was found.
pub open spec fn wait_step(waited_ms: u64, looked: Option<bool>) -> WaitStep {
    match looked {
        Some(true) => WaitStep::Finish,
        Some(false) => WaitStep::Sleep { millis: WINDOW_POLL_INTERVAL_MS },
        None => if waited_ms < WINDOW_WAIT_CEILING_MS {
            WaitStep::Probe
        } else {
            WaitStep::Finish
        },
    }
}

/// Decides the next step of the wait for the application's window: a look
/// while the time is not up, a pause after a look that found nothing, and
/// the end once the window is there or the ceiling is reached.
pub fn wait_for_window(waited_ms: u64, looked: Option<bool>) -> (r: WaitStep)
    ensures
        r == wait_step(waited_ms, looked),
        waited_ms >= WINDOW_WAIT_CEILING_MS && looked is None ==> r is Finish,
{
    match looked {
        Some(true) => WaitStep::Finish,
        Some(false) => WaitStep::Sleep { millis: WINDOW_POLL_INTERVAL_MS },
        None => if waited_ms < WINDOW_WAIT_CEILING_MS {
            WaitStep::Probe
        } else {
            WaitStep::Finish
        },
    }
}

} // verus!
