use latch_panel::counter::CounterState;
use latch_panel::latch::EdgeLatch;
use latch_panel::panel::Panel;
use latch_panel::render::{frame_cmds, startup_cmds, Color, DrawCmd};
use latch_panel::text::{render_counter_line, render_time_line, u64_to_decimal};

#[test]
fn latch_starts_clear() {
    let mut l = EdgeLatch::new();
    assert!(!l.poll_and_clear());
}

#[test]
fn latch_burst_observed_once() {
    let mut l = EdgeLatch::new();
    l.fire();
    l.fire();
    l.fire();
    assert!(l.poll_and_clear());
    assert!(!l.poll_and_clear());
    assert!(!l.poll_and_clear());
    l.fire();
    assert!(l.poll_and_clear());
}

#[test]
fn poll_twice_true_then_false() {
    let mut l = EdgeLatch::new();
    l.fire();
    assert!(l.poll_and_clear());
    assert!(!l.poll_and_clear());
}

#[test]
fn counter_counts_increment_stream() {
    let mut c = CounterState::new();
    for k in 1..=25u64 {
        c.apply_edges(true, false);
        assert_eq!(c.count, k);
    }
}

#[test]
fn counter_reset_dominates_increment() {
    let mut c = CounterState { count: 41 };
    c.apply_edges(true, true);
    assert_eq!(c.count, 0);
}

#[test]
fn counter_reset_alone() {
    let mut c = CounterState { count: 7 };
    c.apply_edges(false, true);
    assert_eq!(c.count, 0);
}

#[test]
fn counter_unchanged_without_edges() {
    let mut c = CounterState { count: 7 };
    c.apply_edges(false, false);
    assert_eq!(c.count, 7);
}

#[test]
fn decimal_rendering_exact() {
    assert_eq!(u64_to_decimal(0), "0");
    assert_eq!(u64_to_decimal(5), "5");
    assert_eq!(u64_to_decimal(10), "10");
    assert_eq!(u64_to_decimal(12345), "12345");
    assert_eq!(u64_to_decimal(u64::MAX), "18446744073709551615");
}

#[test]
fn counter_line_exact() {
    assert_eq!(render_counter_line(5), "counter: 5");
    assert_eq!(render_counter_line(0), "counter: 0");
}

#[test]
fn time_line_exact() {
    assert_eq!(render_time_line(42), "time: 42");
}

#[test]
fn startup_commands_exact() {
    let cmds = startup_cmds();
    assert_eq!(cmds.len(), 2);
    assert_eq!(cmds[0], DrawCmd::Clear { color: Color::Blue });
    assert_eq!(
        cmds[1],
        DrawCmd::Text { x: 10, y: 20, text: String::from("Hello, world!"), color: Color::White }
    );
}

#[test]
fn frame_commands_exact() {
    let cmds = frame_cmds(42, 7);
    assert_eq!(cmds.len(), 4);
    assert_eq!(cmds[0], DrawCmd::FillRect { x: 0, y: 21, width: 128, height: 20, color: Color::Blue });
    assert_eq!(cmds[1], DrawCmd::Text { x: 10, y: 40, text: String::from("time: 42"), color: Color::White });
    assert_eq!(cmds[2], DrawCmd::FillRect { x: 0, y: 41, width: 128, height: 20, color: Color::Blue });
    assert_eq!(cmds[3], DrawCmd::Text { x: 10, y: 60, text: String::from("counter: 7"), color: Color::White });
}

#[test]
fn double_fire_coalesces_to_one_increment() {
    let mut p = Panel {
        button_a: EdgeLatch::new(),
        button_b: EdgeLatch::new(),
        counter: CounterState { count: 5 },
    };
    p.button_a.fire();
    p.button_a.fire();
    let out = p.step(1);
    assert!(out.rearm_a);
    assert!(!out.rearm_b);
    assert_eq!(p.counter.count, 6);
    let out2 = p.step(2);
    assert!(!out2.rearm_a);
    assert_eq!(p.counter.count, 6);
}

#[test]
fn reset_wins_within_one_cycle() {
    let mut p = Panel {
        button_a: EdgeLatch::new(),
        button_b: EdgeLatch::new(),
        counter: CounterState { count: 9 },
    };
    p.button_a.fire();
    p.button_b.fire();
    let out = p.step(3);
    assert!(out.rearm_a);
    assert!(out.rearm_b);
    assert_eq!(p.counter.count, 0);
}

#[test]
fn idle_iterations_keep_counter_and_text() {
    let mut p = Panel::new();
    p.button_a.fire();
    p.step(0);
    assert_eq!(p.counter.count, 1);
    let expected_counter_cmd =
        DrawCmd::Text { x: 10, y: 60, text: String::from("counter: 1"), color: Color::White };
    for i in 1..=10u64 {
        let out = p.step(i);
        assert_eq!(p.counter.count, 1);
        assert!(!out.rearm_a);
        assert!(!out.rearm_b);
        assert_eq!(out.cmds[3], expected_counter_cmd);
        assert_eq!(
            out.cmds[1],
            DrawCmd::Text { x: 10, y: 40, text: format!("time: {}", i), color: Color::White }
        );
    }
}

#[test]
fn step_emits_frame_for_new_count() {
    let mut p = Panel::new();
    p.button_a.fire();
    let out = p.step(11);
    assert_eq!(p.counter.count, 1);
    assert_eq!(
        out.cmds[3],
        DrawCmd::Text { x: 10, y: 60, text: String::from("counter: 1"), color: Color::White }
    );
}
