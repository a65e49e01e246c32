use vstd::prelude::*;

use crate::event::BackendUserEvent;
use crate::registry::EventProxyRegistry;

verus! {

/// The window-event code for "the foreground window changed".
pub const EVENT_SYSTEM_FOREGROUND: u32 = 0x0003;

/// The class name of the desktop's background container window.
pub open spec fn desktop_class_name() -> Seq<char> {
    seq!['W', 'o', 'r', 'k', 'e', 'r', 'W']
}

/// The event a foregrounded window of class `class_name` stands for.
pub open spec fn classify(class_name: Seq<char>) -> BackendUserEvent {
    if class_name == desktop_class_name() {
        BackendUserEvent::DesktopShown
    } else {
        BackendUserEvent::DesktopHidden
    }
}

/// What the hook posts for a notification of kind `event` about a window
/// whose class name was read as `class_name` (`None` when reading failed).
pub open spec fn hook_outcome(event: u32, class_name: Option<Seq<char>>) -> Option<BackendUserEvent> {
    if event != EVENT_SYSTEM_FOREGROUND {
        None
    } else {
        match class_name {
            Some(name) => Some(classify(name)),
            None => None,
        }
    }
}

/// Whether a notification is of the kind the hook reacts to.
pub fn is_foreground_event(event: u32) -> (r: bool)
    ensures
        r == (event == EVENT_SYSTEM_FOREGROUND),
{
    event == EVENT_SYSTEM_FOREGROUND
}

/// Whether `class_name` is exactly the desktop container's class name
/// (case-sensitive).
pub fn is_desktop_class_name(class_name: &str) -> (r: bool)
    ensures
        r == (class_name@ == desktop_class_name()),
{
    let expected: [char; 7] = ['W', 'o', 'r', 'k', 'e', 'r', 'W'];
    let len = class_name.unicode_len();
    if len != 7 {
        return false;
    }
    let mut i: usize = 0;
    while i < 7
        invariant
            0 <= i <= 7,
            class_name@.len() == 7,
            expected@ == desktop_class_name(),
            forall|j: int| 0 <= j < i ==> class_name@[j] == desktop_class_name()[j],
        decreases 7 - i,
    {
        if class_name.get_char(i) != expected[i] {
            return false;
        }
        i = i + 1;
    }
    assert(class_name@ =~= desktop_class_name());
    true
}

/// Classifies the newly foregrounded window by its class name.
pub fn classify_class_name(class_name: &str) -> (r: BackendUserEvent)
    ensures
        r == classify(class_name@),
{
    if is_desktop_class_name(class_name) {
        BackendUserEvent::DesktopShown
    } else {
        BackendUserEvent::DesktopHidden
    }
}

/// Decides what the foreground hook posts: nothing for other notification
/// kinds or when the class name could not be read, otherwise the
/// classification of the class name.
pub fn foreground_event(event: u32, class_name: Option<&str>) -> (r: Option<BackendUserEvent>)
    ensures
        r == hook_outcome(event, read_view(class_name)),
{
    if !is_foreground_event(event) {
        return None;
    }
    match class_name {
        Some(name) => Some(classify_class_name(name)),
        None => None,
    }
}

/// The view of a class-name read: its characters, or `None` if it failed.
pub open spec fn read_view(class_name: Option<&str>) -> Option<Seq<char>> {
    match class_name {
        Some(name) => Some(name@),
        None => None,
    }
}

/// Routes a hook notification: returns the registered proxy together with
/// the event to post through it, or `None` when the notification is of
/// another kind, the class name could not be read, or no proxy is registered
/// yet (the event is then dropped).
pub fn route_hook_event<'a, T>(
    registry: &'a EventProxyRegistry<T>,
    event: u32,
    class_name: Option<&str>,
) -> (r: Option<(&'a T, BackendUserEvent)>)
    ensures
        r is Some <==> (registry@ is Some && hook_outcome(event, read_view(class_name)) is Some),
        r is Some ==> registry@ == Some(*r.unwrap().0) && hook_outcome(
            event,
            read_view(class_name),
        ) == Some(r.unwrap().1),
{
    match registry.get() {
        Some(proxy) => match foreground_event(event, class_name) {
            Some(e) => Some((proxy, e)),
            None => None,
        },
        None => None,
    }
}

} // verus!
