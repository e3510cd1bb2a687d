use magnetar::grab_action::GrabAction;
use magnetar::grab_circle::GrabCircle;
use magnetar::input::{y_pos, InputSnapshot, InputVariant, Point3};
use magnetar::magnetar::{CircleCmd, Magnetar};

fn tip(id: u64, y: i64, grab: i64, distance: i64, scroll_y: i64) -> InputSnapshot {
    InputSnapshot {
        id,
        input: InputVariant::Tip { origin: Point3 { x: 0, y, z: 0 } },
        distance,
        grab,
        grab_strength: 0,
        scroll_y,
    }
}

fn hand(id: u64, y: i64, grab_strength: i64, distance: i64) -> InputSnapshot {
    InputSnapshot {
        id,
        input: InputVariant::Hand { palm_position: Point3 { x: 0, y, z: 0 } },
        distance,
        grab: 0,
        grab_strength,
        scroll_y: 0,
    }
}

#[test]
fn y_pos_dispatches_on_input_kind() {
    let p = InputSnapshot {
        id: 1,
        input: InputVariant::Pointer { deepest_point: Point3 { x: 5, y: 70, z: 9 } },
        distance: 0,
        grab: 0,
        grab_strength: 0,
        scroll_y: 0,
    };
    assert_eq!(y_pos(&p), 70);
    assert_eq!(y_pos(&hand(2, -30, 0, 0)), -30);
    assert_eq!(y_pos(&tip(3, 40, 0, 0, 0)), 40);
}

#[test]
fn grab_predicate_thresholds() {
    let mut g = GrabAction::new();
    // a tip at exactly the threshold does not qualify
    g.update(&vec![tip(1, 0, 900, 0, 0)]);
    assert_eq!(g.actor, None);
    g.update(&vec![tip(1, 0, 901, 0, 0)]);
    assert_eq!(g.actor, Some(1));
    let mut g = GrabAction::new();
    // a hand goes by grab strength, not the grab axis
    g.update(&vec![hand(2, 0, 800, 0)]);
    assert_eq!(g.actor, None);
    g.update(&vec![hand(2, 0, 801, 0)]);
    assert_eq!(g.actor, Some(2));
}

#[test]
fn second_qualifying_input_does_not_preempt_the_actor() {
    let mut g = GrabAction::new();
    g.update(&vec![tip(1, 0, 950, 0, 0)]);
    assert_eq!(g.actor, Some(1));
    assert!(g.started);
    // another input starts qualifying: the actor keeps the grab
    g.update(&vec![tip(1, 0, 950, 0, 0), tip(2, 0, 999, 0, 0)]);
    assert_eq!(g.actor, Some(1));
    assert!(!g.started);
    assert!(!g.stopped);
    // the actor lets go: the slot frees, nobody is admitted the same frame
    g.update(&vec![tip(1, 0, 0, 0, 0), tip(2, 0, 999, 0, 0)]);
    assert_eq!(g.actor, None);
    assert!(g.stopped);
    assert!(!g.started);
    // the waiting input is admitted on the following frame
    g.update(&vec![tip(1, 0, 0, 0, 0), tip(2, 0, 999, 0, 0)]);
    assert_eq!(g.actor, Some(2));
    assert!(g.started);
}

#[test]
fn actor_disappearing_from_the_frame_stops_the_grab() {
    let mut g = GrabAction::new();
    g.update(&vec![tip(1, 0, 950, 0, 0)]);
    assert_eq!(g.actor, Some(1));
    g.update(&vec![]);
    assert_eq!(g.actor, None);
    assert!(g.stopped);
}

#[test]
fn hover_lists_track_starts_and_stops() {
    let mut g = GrabAction::new();
    g.update(&vec![tip(1, 0, 0, 10, 0), tip(2, 0, 0, 500, 0)]);
    assert_eq!(g.hovering, vec![1]);
    assert_eq!(g.hover_started, vec![1]);
    assert!(g.hover_stopped.is_empty());
    g.update(&vec![tip(1, 0, 0, -20, 0), tip(2, 0, 0, 30, 0)]);
    assert_eq!(g.hovering, vec![1, 2]);
    assert_eq!(g.hover_started, vec![2]);
    assert!(g.hover_stopped.is_empty());
    g.update(&vec![tip(2, 0, 0, 30, 0)]);
    assert_eq!(g.hovering, vec![2]);
    assert!(g.hover_started.is_empty());
    assert_eq!(g.hover_stopped, vec![1]);
}

#[test]
fn grab_circle_scale_maps_distance_and_pins_while_grabbing() {
    let circle = GrabCircle::new(1000);
    // far inputs give no scale, close inputs grow linearly, clamped at 0.1
    assert_eq!(circle.update(&tip(1, 0, 0, 200, 0), false), 0);
    assert_eq!(circle.update(&tip(1, 0, 0, 80, 0), false), 40);
    assert_eq!(circle.update(&tip(1, 0, 0, -80, 0), false), 40);
    assert_eq!(circle.update(&tip(1, 0, 0, 10, 0), false), 100);
    // the grab actor's marker is pinned large regardless of distance
    assert_eq!(circle.update(&tip(1, 0, 0, 200, 0), true), 100);
}

#[test]
fn drag_commits_offset_and_restores_flags() {
    let mut m = Magnetar::new();
    m.add_cell();
    let none: Vec<InputSnapshot> = vec![];
    // let the cell materialize: the flag turns true on the third tick
    m.frame(250, &none);
    m.frame(250, &none);
    m.frame(250, &none);
    assert!(m.cells[0].active);
    assert_eq!(m.y_pos, 0);

    // grab starts at actor y = 2.0: no jump, every flag forced false
    let out = m.frame(250, &vec![tip(7, 2000, 950, 10, 0)]);
    assert_eq!(m.grab_input_action.actor, Some(7));
    assert!(m.grab_input_action.started);
    assert!(!m.cells[0].active);
    assert_eq!(m.y_offset, 2000);
    assert_eq!(m.y_pos_tmp, 0);
    assert_eq!(out.translation, Some(0));

    // the actor moves to y = 2.5: the stack follows by 0.5
    let out = m.frame(250, &vec![tip(7, 2500, 950, 10, 0)]);
    assert!(!m.grab_input_action.started);
    assert_eq!(m.y_pos_tmp, 500);
    assert_eq!(m.y_pos, 0);
    assert_eq!(out.translation, Some(500));

    // the grab stops: the offset commits and every flag turns back true
    let out = m.frame(250, &vec![tip(7, 2500, 0, 10, 0)]);
    assert!(m.grab_input_action.stopped);
    assert_eq!(m.y_pos, 500);
    assert!(m.cells[0].active);
    assert_eq!(out.translation, None);
}

#[test]
fn capture_queued_during_drag_waits_for_release() {
    let mut m = Magnetar::new();
    m.add_cell();
    let none: Vec<InputSnapshot> = vec![];
    m.frame(250, &none);
    m.frame(250, &none);
    m.frame(250, &none);
    // a drag begins: the flag is forced shut, entering objects queue up
    m.frame(250, &vec![tip(7, 2000, 950, 10, 0)]);
    assert!(!m.cells[0].active);
    assert!(!m.cells[0].enter(42));
    assert_eq!(m.cells[0].queued_zoneables, vec![42]);
    // the next tick recomputes the flag from the idle ring and drains
    let out = m.frame(250, &vec![tip(7, 2000, 950, 10, 0)]);
    assert_eq!(out.cell_outs[0].captures, vec![42]);
    assert!(m.cells[0].queued_zoneables.is_empty());
}

#[test]
fn scroll_nudges_the_stack_while_not_grabbed() {
    let mut m = Magnetar::new();
    // a hovering input scrolls by 1.0: a tenth of it moves the stack
    let out = m.frame(250, &vec![tip(1, 0, 0, 10, 1000)]);
    assert_eq!(m.y_pos, 100);
    assert_eq!(m.y_pos_tmp, 100);
    assert_eq!(m.y_offset, 100);
    assert_eq!(out.translation, Some(100));
    // a far input's scroll is ignored
    let out = m.frame(250, &vec![tip(1, 0, 0, 500, 1000)]);
    assert_eq!(m.y_pos, 100);
    assert_eq!(out.translation, None);
}

#[test]
fn scroll_during_a_drag_cancels_out_of_the_rendered_position() {
    let mut m = Magnetar::new();
    m.frame(250, &vec![tip(7, 2000, 950, 10, 0)]);
    assert_eq!(m.y_pos_tmp, 0);
    // scrolling mid-drag shifts all three offsets together
    let out = m.frame(250, &vec![tip(7, 2000, 950, 10, 500)]);
    assert_eq!(m.y_offset, 2050);
    assert_eq!(m.y_pos, 50);
    assert_eq!(m.y_pos_tmp, 50);
    assert_eq!(out.translation, Some(50));
    // the next acting frame recomputes the same dragged position
    let out = m.frame(250, &vec![tip(7, 2000, 950, 10, 0)]);
    assert_eq!(m.y_pos_tmp, 0);
    assert_eq!(out.translation, Some(0));
}

#[test]
fn grab_circles_follow_hovering_inputs() {
    let mut m = Magnetar::new();
    let out = m.frame(250, &vec![tip(1, 0, 950, 10, 0)]);
    assert_eq!(m.grab_circles, vec![1]);
    assert_eq!(out.circle_cmds.len(), 2);
    assert!(matches!(out.circle_cmds[0], CircleCmd::Spawn { id: 1 }));
    // the actor's marker is pinned to the large scale
    match out.circle_cmds[1] {
        CircleCmd::Rescale { id, scale, grabbing } => {
            assert_eq!(id, 1);
            assert_eq!(scale, 100);
            assert!(grabbing);
        },
        _ => panic!("expected a rescale command"),
    }
    // the input stops hovering: its marker is removed
    let out = m.frame(250, &vec![tip(1, 0, 950, 900, 0)]);
    assert!(m.grab_circles.is_empty());
    assert_eq!(out.circle_cmds.len(), 1);
    assert!(matches!(out.circle_cmds[0], CircleCmd::Remove { id: 1 }));
}

#[test]
fn add_cell_grows_the_field_downward() {
    let mut m = Magnetar::new();
    let f = m.add_cell();
    assert_eq!(m.cells.len(), 1);
    assert_eq!(m.cells[0].y_offset, 0);
    assert_eq!(f.y, 0);
    assert_eq!(f.length, 1000);
    let f = m.add_cell();
    assert_eq!(m.cells[1].y_offset, -1000);
    assert_eq!(f.y, 500);
    assert_eq!(f.length, 2000);
    let f = m.add_cell();
    assert_eq!(m.cells[2].y_offset, -2000);
    assert_eq!(f.y, 1000);
    assert_eq!(f.length, 3000);
}
