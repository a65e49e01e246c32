use desktop_reminders::event::BackendUserEvent;
use desktop_reminders::hook::{
    classify_class_name, foreground_event, is_desktop_class_name, is_foreground_event,
    route_hook_event, EVENT_SYSTEM_FOREGROUND,
};
use desktop_reminders::main_loop::{LoopEvent, LoopPhase, MainLoop, WAIT_TIMEOUT_SECS};
use desktop_reminders::registry::{AlreadyRegistered, EventProxyRegistry};
use desktop_reminders::visibility::DesktopVisibilityState;
use desktop_reminders::zorder::{
    InsertAfter, WindowHandle, WindowLevel, ZOrderCommand, ZOrderEnforcer, ZOrderPhase,
    ZOrderReply, REPOSITION_FLAGS, SWP_ASYNCWINDOWPOS, SWP_NOACTIVATE, SWP_NOMOVE,
    SWP_NOOWNERZORDER, SWP_NOSENDCHANGING, SWP_NOSIZE,
};

#[test]
fn worker_w_is_desktop_shown() {
    assert_eq!(classify_class_name("WorkerW"), BackendUserEvent::DesktopShown);
    assert_eq!(classify_class_name("Chrome_WidgetWin_1"), BackendUserEvent::DesktopHidden);
}

#[test]
fn class_name_match_is_exact_and_case_sensitive() {
    assert!(is_desktop_class_name("WorkerW"));
    assert!(!is_desktop_class_name("workerw"));
    assert!(!is_desktop_class_name("WorkerW "));
    assert!(!is_desktop_class_name("Worker"));
    assert!(!is_desktop_class_name(""));
    assert_eq!(classify_class_name("Progman"), BackendUserEvent::DesktopHidden);
}

#[test]
fn other_notification_kinds_are_ignored() {
    assert!(is_foreground_event(EVENT_SYSTEM_FOREGROUND));
    assert!(!is_foreground_event(0x8005));
    assert_eq!(foreground_event(0x8005, Some("WorkerW")), None);
    assert_eq!(
        foreground_event(EVENT_SYSTEM_FOREGROUND, Some("WorkerW")),
        Some(BackendUserEvent::DesktopShown)
    );
    assert_eq!(
        foreground_event(EVENT_SYSTEM_FOREGROUND, Some("Notepad")),
        Some(BackendUserEvent::DesktopHidden)
    );
}

#[test]
fn destroyed_window_enqueues_nothing() {
    // The class-name read failed: the handle was already gone.
    assert_eq!(foreground_event(EVENT_SYSTEM_FOREGROUND, None), None);
    let mut registry = EventProxyRegistry::new();
    registry.register(7u32).unwrap();
    assert!(route_hook_event(&registry, EVENT_SYSTEM_FOREGROUND, None).is_none());
}

#[test]
fn hook_event_without_proxy_is_dropped() {
    let registry: EventProxyRegistry<u32> = EventProxyRegistry::new();
    assert!(route_hook_event(&registry, EVENT_SYSTEM_FOREGROUND, Some("WorkerW")).is_none());
}

#[test]
fn hook_event_is_routed_to_registered_proxy() {
    let mut registry = EventProxyRegistry::new();
    registry.register(42u32).unwrap();
    let routed = route_hook_event(&registry, EVENT_SYSTEM_FOREGROUND, Some("WorkerW"));
    assert_eq!(routed, Some((&42u32, BackendUserEvent::DesktopShown)));
    let routed = route_hook_event(&registry, EVENT_SYSTEM_FOREGROUND, Some("Explorer"));
    assert_eq!(routed, Some((&42u32, BackendUserEvent::DesktopHidden)));
}

#[test]
fn second_registration_fails_and_first_stays() {
    let mut registry = EventProxyRegistry::new();
    assert!(!registry.is_registered());
    assert!(registry.get().is_none());
    // Two simulated threads: the first to run wins.
    let first_thread = "first";
    let second_thread = "second";
    assert_eq!(registry.register(first_thread), Ok(()));
    assert_eq!(registry.register(second_thread), Err(AlreadyRegistered));
    assert_eq!(registry.register("third"), Err(AlreadyRegistered));
    assert!(registry.is_registered());
    assert_eq!(registry.get(), Some(&"first"));
}

#[test]
fn two_desktop_shown_events_make_one_transition() {
    let mut state = DesktopVisibilityState::Hidden;
    assert!(state.apply(BackendUserEvent::DesktopShown));
    assert!(!state.apply(BackendUserEvent::DesktopShown));
    assert_eq!(state, DesktopVisibilityState::Shown);

    let mut state = DesktopVisibilityState::Hidden;
    let events = vec![BackendUserEvent::DesktopShown, BackendUserEvent::DesktopShown];
    assert_eq!(state.apply_all(&events), 1);
    assert_eq!(state, DesktopVisibilityState::Shown);
}

#[test]
fn state_follows_last_classified_event() {
    let mut state = DesktopVisibilityState::Hidden;
    let events = vec![
        BackendUserEvent::DesktopShown,
        BackendUserEvent::RequestRepaint,
        BackendUserEvent::DesktopHidden,
        BackendUserEvent::DesktopHidden,
        BackendUserEvent::DesktopShown,
        BackendUserEvent::RequestRepaint,
    ];
    assert_eq!(state.apply_all(&events), 3);
    assert_eq!(state, DesktopVisibilityState::Shown);

    let mut state = DesktopVisibilityState::Shown;
    assert_eq!(state.apply_all(&vec![BackendUserEvent::RequestRepaint]), 0);
    assert_eq!(state, DesktopVisibilityState::Shown);
    assert_eq!(state.apply_all(&vec![]), 0);
    assert!(state.is_shown());
}

/// Runs one enforcement walk against a simulated window manager and returns
/// the commands issued.
fn run_walk(
    enforcer: &mut ZOrderEnforcer,
    mut answer: impl FnMut(&ZOrderCommand) -> ZOrderReply,
) -> Vec<ZOrderCommand> {
    let mut issued = Vec::new();
    let mut reply = ZOrderReply::Ready;
    loop {
        let command = enforcer.next_command(reply);
        issued.push(command);
        if command == ZOrderCommand::Done {
            break;
        }
        assert!(issued.len() < 1000, "walk did not end");
        reply = answer(&command);
    }
    issued
}

#[test]
fn reposition_flags_keep_geometry() {
    assert_eq!(REPOSITION_FLAGS, 0x4613);
    for flag in [SWP_NOMOVE, SWP_NOSIZE, SWP_NOACTIVATE, SWP_NOOWNERZORDER, SWP_NOSENDCHANGING, SWP_ASYNCWINDOWPOS] {
        assert_ne!(REPOSITION_FLAGS & flag, 0);
    }
}

#[test]
fn hidden_desktop_sends_window_to_bottom() {
    let mut enforcer = ZOrderEnforcer::new(DesktopVisibilityState::Hidden, 10);
    let issued = run_walk(&mut enforcer, |_| ZOrderReply::Ready);
    assert_eq!(
        issued,
        vec![
            ZOrderCommand::SetWindowLevel(WindowLevel::AlwaysOnBottom),
            ZOrderCommand::Reposition { insert_after: InsertAfter::Bottom, flags: REPOSITION_FLAGS },
            ZOrderCommand::Done,
        ]
    );
    assert!(enforcer.is_finished());
    assert_eq!(enforcer.phase(), ZOrderPhase::Finished);
}

#[test]
fn shown_desktop_walks_up_until_first() {
    // Two windows are above the host; each placement succeeds.
    let mut above = vec![WindowHandle(2), WindowHandle(1)];
    let mut enforcer = ZOrderEnforcer::new(DesktopVisibilityState::Shown, 5);
    let issued = run_walk(&mut enforcer, |command| match command {
        ZOrderCommand::QueryPrevious => ZOrderReply::Previous(above.first().copied()),
        ZOrderCommand::Reposition { insert_after: InsertAfter::Window(_), .. } => {
            above.remove(0);
            ZOrderReply::Repositioned(true)
        }
        _ => ZOrderReply::Ready,
    });
    assert_eq!(
        issued,
        vec![
            ZOrderCommand::SetWindowLevel(WindowLevel::AlwaysOnTop),
            ZOrderCommand::Reposition { insert_after: InsertAfter::Topmost, flags: REPOSITION_FLAGS },
            ZOrderCommand::QueryPrevious,
            ZOrderCommand::Reposition {
                insert_after: InsertAfter::Window(WindowHandle(2)),
                flags: REPOSITION_FLAGS
            },
            ZOrderCommand::QueryPrevious,
            ZOrderCommand::Reposition {
                insert_after: InsertAfter::Window(WindowHandle(1)),
                flags: REPOSITION_FLAGS
            },
            ZOrderCommand::QueryPrevious,
            ZOrderCommand::Done,
        ]
    );
}

#[test]
fn failed_placement_stops_walk() {
    let mut enforcer = ZOrderEnforcer::new(DesktopVisibilityState::Shown, 5);
    let issued = run_walk(&mut enforcer, |command| match command {
        ZOrderCommand::QueryPrevious => ZOrderReply::Previous(Some(WindowHandle(9))),
        ZOrderCommand::Reposition { insert_after: InsertAfter::Window(_), .. } => {
            ZOrderReply::Repositioned(false)
        }
        _ => ZOrderReply::Ready,
    });
    assert_eq!(issued.len(), 5);
    assert_eq!(issued[4], ZOrderCommand::Done);
}

#[test]
fn walk_is_bounded_even_if_every_placement_succeeds() {
    // A window manager that always reports a window above the host and
    // accepts every placement.
    for open_windows in [0usize, 1, 3, 17] {
        let mut enforcer = ZOrderEnforcer::new(DesktopVisibilityState::Shown, open_windows);
        let issued = run_walk(&mut enforcer, |command| match command {
            ZOrderCommand::QueryPrevious => ZOrderReply::Previous(Some(WindowHandle(-1))),
            ZOrderCommand::Reposition { .. } => ZOrderReply::Repositioned(true),
            _ => ZOrderReply::Ready,
        });
        let steps = issued
            .iter()
            .filter(|c| matches!(c, ZOrderCommand::Reposition { insert_after: InsertAfter::Window(_), .. }))
            .count();
        assert_eq!(steps, open_windows);
        assert!(issued.len() <= 2 * open_windows + 4);
        for c in &issued {
            if let ZOrderCommand::Reposition { flags, .. } = c {
                assert_eq!(*flags, REPOSITION_FLAGS);
                assert_ne!(flags & SWP_NOMOVE, 0);
                assert_ne!(flags & SWP_NOSIZE, 0);
            }
        }
    }
}

#[test]
fn main_loop_initializes_render_state_once() {
    let mut main_loop = MainLoop::new();
    assert_eq!(main_loop.phase(), LoopPhase::Uninitialized);
    let plan = main_loop.tick(LoopEvent::Other);
    assert!(plan.init_render);
    assert_eq!(plan.wait_timeout_secs, WAIT_TIMEOUT_SECS);
    assert_eq!(plan.enforce, DesktopVisibilityState::Hidden);
    assert_eq!(main_loop.phase(), LoopPhase::Hidden);
    let plan = main_loop.tick(LoopEvent::MainEventsCleared);
    assert!(!plan.init_render);
    assert!(plan.run_ui);
    assert!(!plan.paint);
}

#[test]
fn main_loop_enforces_updated_state() {
    let mut main_loop = MainLoop::new();
    main_loop.tick(LoopEvent::Other);
    let plan = main_loop.tick(LoopEvent::User(BackendUserEvent::DesktopShown));
    assert_eq!(plan.enforce, DesktopVisibilityState::Shown);
    assert_eq!(plan.transition, Some(DesktopVisibilityState::Shown));
    assert_eq!(main_loop.phase(), LoopPhase::Shown);
    let plan = main_loop.tick(LoopEvent::User(BackendUserEvent::DesktopShown));
    assert_eq!(plan.transition, None);
    assert_eq!(plan.enforce, DesktopVisibilityState::Shown);
    let plan = main_loop.tick(LoopEvent::User(BackendUserEvent::RequestRepaint));
    assert!(plan.request_redraw);
    assert_eq!(plan.transition, None);
    let plan = main_loop.tick(LoopEvent::User(BackendUserEvent::DesktopHidden));
    assert_eq!(plan.transition, Some(DesktopVisibilityState::Hidden));
    assert_eq!(main_loop.desktop(), DesktopVisibilityState::Hidden);
    let plan = main_loop.tick(LoopEvent::RedrawRequested);
    assert!(plan.paint);
    let plan = main_loop.tick(LoopEvent::WindowInput);
    assert!(plan.dispatch);
    assert!(!plan.request_redraw);
}
