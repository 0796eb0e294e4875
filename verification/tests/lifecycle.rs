use nephrite::lifecycle::{
    on_exiting, on_initialized, on_resumed, on_window_event, shell_after_start_up,
    shell_on_exiting, shell_on_resumed, shell_on_window_event, ShellAction, ShellPhase,
    WindowEventKind, WrapperAction, WrapperPhase,
};
use nephrite::state::{App, Initialized, Uninitialized, Vulkan, Window};

#[test]
fn wrapper_exiting() {
    assert_eq!(
        on_exiting(WrapperPhase::Initialized),
        (WrapperPhase::Uninitialized, WrapperAction::Deinitialize)
    );
    assert_eq!(
        on_exiting(WrapperPhase::Uninitialized),
        (WrapperPhase::Transitioning, WrapperAction::Nothing)
    );
    assert_eq!(
        on_exiting(WrapperPhase::Transitioning),
        (WrapperPhase::Transitioning, WrapperAction::Nothing)
    );
}

#[test]
fn wrapper_resumed_and_initialization() {
    assert_eq!(
        on_resumed(WrapperPhase::Uninitialized),
        (WrapperPhase::Transitioning, WrapperAction::Initialize)
    );
    assert_eq!(
        on_resumed(WrapperPhase::Initialized),
        (WrapperPhase::Transitioning, WrapperAction::Nothing)
    );
    assert_eq!(on_initialized(true), (WrapperPhase::Initialized, WrapperAction::Nothing));
    assert_eq!(on_initialized(false), (WrapperPhase::Transitioning, WrapperAction::ExitLoop));
}

#[test]
fn wrapper_window_events() {
    assert_eq!(
        on_window_event(WrapperPhase::Initialized, WindowEventKind::RedrawRequested),
        WrapperAction::RenderAndRequestRedraw
    );
    assert_eq!(on_window_event(WrapperPhase::Initialized, WindowEventKind::CloseRequested), WrapperAction::ExitLoop);
    assert_eq!(on_window_event(WrapperPhase::Initialized, WindowEventKind::Other), WrapperAction::Nothing);
    for phase in [WrapperPhase::Uninitialized, WrapperPhase::Transitioning] {
        for event in [
            WindowEventKind::RedrawRequested,
            WindowEventKind::CloseRequested,
            WindowEventKind::Other,
        ] {
            assert_eq!(on_window_event(phase, event), WrapperAction::Nothing);
        }
    }
}

#[test]
fn wrapper_initializations_balance_on_a_run() {
    // resumed (success), redraw, exiting, resumed: the context is built once
    // and torn down once; after the run the wrapper is stuck transitioning.
    let mut phase = WrapperPhase::Uninitialized;
    let (mut inits, mut deinits) = (0, 0);
    let (p, a) = on_resumed(phase);
    assert_eq!(a, WrapperAction::Initialize);
    phase = p;
    let (p, _) = on_initialized(true);
    phase = p;
    inits += 1;
    assert_eq!(on_window_event(phase, WindowEventKind::RedrawRequested), WrapperAction::RenderAndRequestRedraw);
    let (p, a) = on_exiting(phase);
    if a == WrapperAction::Deinitialize {
        deinits += 1;
    }
    phase = p;
    assert_eq!(phase, WrapperPhase::Uninitialized);
    assert_eq!(inits, deinits);
    let (p, a) = on_exiting(phase);
    assert_eq!((p, a), (WrapperPhase::Transitioning, WrapperAction::Nothing));
    assert_eq!(on_resumed(p), (WrapperPhase::Transitioning, WrapperAction::Nothing));
}

#[test]
fn shell_decisions() {
    assert_eq!(shell_on_exiting(ShellPhase::Initialized), ShellAction::DestroyContext);
    assert_eq!(shell_on_exiting(ShellPhase::Uninitialized), ShellAction::Nothing);
    assert_eq!(shell_on_resumed(ShellPhase::Uninitialized), ShellAction::StartUp);
    assert_eq!(shell_on_resumed(ShellPhase::Initialized), ShellAction::Nothing);
    assert_eq!(shell_after_start_up(true), (ShellPhase::Initialized, ShellAction::Nothing));
    assert_eq!(shell_after_start_up(false), (ShellPhase::Uninitialized, ShellAction::ExitLoop));
    assert_eq!(
        shell_on_window_event(ShellPhase::Initialized, WindowEventKind::RedrawRequested),
        ShellAction::RequestRedraw
    );
    assert_eq!(
        shell_on_window_event(ShellPhase::Initialized, WindowEventKind::CloseRequested),
        ShellAction::ExitLoop
    );
    assert_eq!(
        shell_on_window_event(ShellPhase::Uninitialized, WindowEventKind::CloseRequested),
        ShellAction::Nothing
    );
}

#[test]
fn type_state_containers() {
    let w: Window<Initialized, u32> = Window::with_data(7);
    assert_eq!(w.data, 7);
    let d: Window<Uninitialized, u32> = Window::default();
    assert_eq!(d.data, 0);
    let v: Vulkan<Initialized, String> = Vulkan::with_data("ctx".to_string());
    assert_eq!(v.data, "ctx");
    let app: App<Uninitialized, Uninitialized> = App::default();
    let ready = app.initialized(3u8, "vk");
    assert_eq!(ready.window.data, 3);
    assert_eq!(ready.vulkan.data, "vk");
}
