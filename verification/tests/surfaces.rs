use wlgreet::config::OutputMode;
use wlgreet::surfaces::{AppInner, RenderSurface, SurfaceAction};

fn with_globals(mode: OutputMode, scale: u32) -> AppInner {
    let mut inner = AppInner::new(mode, scale);
    inner.set_compositor(true);
    inner.set_shell(true);
    inner
}

fn create(index: usize, output: Option<u32>, scale: i32) -> SurfaceAction {
    SurfaceAction::CreateSurface { index, output, width: 1, height: 1, scale }
}

#[test]
fn nothing_happens_before_the_globals_are_bound() {
    let mut inner = AppInner::new(OutputMode::All, 1);
    assert_eq!(inner.add_output(7, 3), vec![]);
    inner.set_compositor(true);
    assert_eq!(inner.add_output(8, 3), vec![]);
    assert_eq!(inner.surface_count(), 0);
    assert_eq!(inner.output_count(), 2);
    assert!(inner.ready());
}

#[test]
fn active_mode_one_monitor_gives_one_surface_of_one_by_one() {
    let mut inner = with_globals(OutputMode::Active, 2);
    let actions = inner.add_output(40, 3);
    assert_eq!(actions, vec![create(0, None, 2), SurfaceAction::ForceDraw]);
    assert_eq!(inner.surface_count(), 1);
    assert_eq!(inner.surface(0), Some(RenderSurface { output: None, configured: false }));
    assert_eq!(inner.configured_surfaces(), 0);
    assert!(!inner.ready());
    let acked = inner.configure(0, 99);
    assert_eq!(
        acked,
        vec![SurfaceAction::AckConfigure { index: 0, serial: 99 }, SurfaceAction::ForceDraw]
    );
    assert_eq!(inner.configured_surfaces(), 1);
    assert!(inner.ready());
}

#[test]
fn active_mode_rebuilds_its_one_surface_on_every_change() {
    let mut inner = with_globals(OutputMode::Active, 1);
    inner.add_output(1, 3);
    inner.configure(0, 5);
    let actions = inner.add_output(2, 3);
    assert_eq!(
        actions,
        vec![
            SurfaceAction::DestroyShellSurface { index: 0 },
            SurfaceAction::DestroySurface { index: 0 },
            create(0, None, 1),
            SurfaceAction::ForceDraw,
        ]
    );
    assert_eq!(inner.surface_count(), 1);
    assert_eq!(inner.configured_surfaces(), 0);
}

#[test]
fn all_mode_unplugging_one_of_two_monitors_rebuilds_for_the_other() {
    let mut inner = with_globals(OutputMode::All, 1);
    inner.add_output(10, 3);
    inner.add_output(11, 2);
    assert_eq!(inner.surface_count(), 2);
    inner.configure(0, 1);
    inner.configure(1, 2);
    assert!(inner.ready());

    let actions = inner.remove_output(10);
    assert_eq!(
        actions,
        vec![
            SurfaceAction::ReleaseOutput { id: 10 },
            SurfaceAction::DestroyShellSurface { index: 0 },
            SurfaceAction::DestroyShellSurface { index: 1 },
            SurfaceAction::DestroySurface { index: 0 },
            SurfaceAction::DestroySurface { index: 1 },
            create(0, Some(11), 1),
            SurfaceAction::ForceDraw,
        ]
    );
    assert_eq!(inner.surface_count(), 1);
    assert_eq!(inner.output_count(), 1);
    assert_eq!(inner.configured_surfaces(), 0);
    assert!(!inner.ready());

    let acked = inner.configure(0, 30);
    assert_eq!(
        acked,
        vec![SurfaceAction::AckConfigure { index: 0, serial: 30 }, SurfaceAction::ForceDraw]
    );
    assert_eq!(inner.configured_surfaces(), 1);
    assert!(inner.ready());
    assert_eq!(inner.configure(0, 31), vec![]);
    assert_eq!(inner.configured_surfaces(), 1);
}

#[test]
fn an_old_output_is_not_released() {
    let mut inner = with_globals(OutputMode::All, 1);
    inner.add_output(10, 2);
    let actions = inner.remove_output(10);
    assert_eq!(
        actions,
        vec![
            SurfaceAction::DestroyShellSurface { index: 0 },
            SurfaceAction::DestroySurface { index: 0 },
            SurfaceAction::ForceDraw,
        ]
    );
    assert_eq!(inner.surface_count(), 0);
}

#[test]
fn removing_an_unknown_output_changes_nothing() {
    let mut inner = with_globals(OutputMode::All, 1);
    inner.add_output(10, 3);
    inner.configure(0, 1);
    assert_eq!(inner.remove_output(99), vec![]);
    assert_eq!(inner.surface_count(), 1);
    assert_eq!(inner.configured_surfaces(), 1);
    assert_eq!(inner.output_count(), 1);
}

#[test]
fn all_mode_makes_one_surface_for_each_output_in_order() {
    let mut inner = with_globals(OutputMode::All, 3);
    inner.add_output(5, 3);
    inner.add_output(6, 3);
    let actions = inner.add_output(7, 3);
    assert_eq!(
        actions,
        vec![
            SurfaceAction::DestroyShellSurface { index: 0 },
            SurfaceAction::DestroyShellSurface { index: 1 },
            SurfaceAction::DestroySurface { index: 0 },
            SurfaceAction::DestroySurface { index: 1 },
            create(0, Some(5), 3),
            create(1, Some(6), 3),
            create(2, Some(7), 3),
            SurfaceAction::ForceDraw,
        ]
    );
    assert_eq!(inner.surface(2), Some(RenderSurface { output: Some(7), configured: false }));
    assert_eq!(inner.surface(3), None);
    assert_eq!(inner.scale(), 3);
}

#[test]
fn hiding_tears_everything_down_and_asks_for_no_redraw() {
    let mut inner = with_globals(OutputMode::All, 1);
    inner.add_output(5, 3);
    inner.configure(0, 1);
    let actions = inner.set_visible(false);
    assert_eq!(
        actions,
        vec![
            SurfaceAction::DestroyShellSurface { index: 0 },
            SurfaceAction::DestroySurface { index: 0 },
        ]
    );
    assert_eq!(inner.surface_count(), 0);
    assert_eq!(inner.configured_surfaces(), 0);
    let shown = inner.set_visible(true);
    assert_eq!(shown, vec![create(0, Some(5), 1), SurfaceAction::ForceDraw]);
}

#[test]
fn a_configure_for_no_surface_is_ignored() {
    let mut inner = with_globals(OutputMode::Active, 1);
    inner.outputs_changed();
    assert_eq!(inner.configure(1, 4), vec![]);
    assert_eq!(inner.configured_surfaces(), 0);
}

#[test]
fn a_frame_may_be_drawn_only_when_every_surface_is_configured() {
    let mut inner = with_globals(OutputMode::All, 1);
    inner.add_output(1, 3);
    inner.add_output(2, 3);
    assert!(!inner.ready());
    inner.configure(1, 1);
    assert!(!inner.ready());
    inner.configure(1, 2);
    assert!(!inner.ready());
    inner.configure(0, 3);
    assert!(inner.ready());
}

#[test]
fn a_new_surface_starts_unconfigured_at_one_by_one() {
    let (surface, action) = AppInner::add_shell_surface(2, 4, Some(9));
    assert_eq!(surface, RenderSurface { output: Some(9), configured: false });
    assert_eq!(action, create(4, Some(9), 2));
}
