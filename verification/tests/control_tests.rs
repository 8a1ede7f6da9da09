use lightshow::button::{button_step, InputEvent, MonitorState};
use lightshow::channel::{EventChannel, SendOutcome, Signal};
use lightshow::control::ControlLoop;
use lightshow::patterns::Pattern;
use lightshow::pixel::Pixel;

fn px(r: u8, g: u8, b: u8) -> Pixel {
    Pixel { r, g, b }
}

const CYCLE: u64 = 30_000_000;

#[test]
fn pattern_cycle_order() {
    assert_eq!(Pattern::Rainbow.next(), Pattern::Twinkle);
    assert_eq!(Pattern::Twinkle.next(), Pattern::Breathe);
    assert_eq!(Pattern::Breathe.next(), Pattern::Alternating);
    assert_eq!(Pattern::Alternating.next(), Pattern::RainbowComet);
    assert_eq!(Pattern::RainbowComet.next(), Pattern::Rainbow);
}

#[test]
fn pattern_periods() {
    assert_eq!(Pattern::Rainbow.duration_ms(), 10);
    assert_eq!(Pattern::Twinkle.duration_ms(), 2);
    assert_eq!(Pattern::Breathe.duration_ms(), 8);
    assert_eq!(Pattern::Alternating.duration_ms(), 400);
    assert_eq!(Pattern::RainbowComet.duration_ms(), 50);
}

#[test]
fn control_starts_with_the_rainbow() {
    let control = ControlLoop::starting_at(0);
    assert_eq!(control.active_pattern(), Pattern::Rainbow);
    assert_eq!(control.frame_period_ms(), 10);
    assert!(!control.needs_random());
}

#[test]
fn control_started_by_the_clock_starts_with_the_rainbow() {
    let control = ControlLoop::new();
    assert_eq!(control.active_pattern(), Pattern::Rainbow);
    assert_eq!(control.frame_period_ms(), 10);
}

#[test]
fn control_signal_advances_and_names_the_new_period() {
    let mut control = ControlLoop::starting_at(0);
    assert_eq!(control.on_signal(), 2);
    assert_eq!(control.active_pattern(), Pattern::Twinkle);
    assert!(control.needs_random());
    assert_eq!(control.on_signal(), 8);
    assert_eq!(control.active_pattern(), Pattern::Breathe);
    assert!(!control.needs_random());
    assert_eq!(control.on_signal(), 400);
    assert_eq!(control.active_pattern(), Pattern::Alternating);
    assert_eq!(control.on_signal(), 50);
    assert_eq!(control.active_pattern(), Pattern::RainbowComet);
    assert_eq!(control.on_signal(), 10);
    assert_eq!(control.active_pattern(), Pattern::Rainbow);
    assert_eq!(control.frame_period_ms(), 10);
}

#[test]
fn control_tick_renders_the_rainbow() {
    let mut control = ControlLoop::starting_at(0);
    let mut frame = [px(0, 0, 0); 4];
    control.render_at(&mut frame, &[], 0, CYCLE);
    assert_eq!(frame, [px(252, 3, 0), px(60, 195, 0), px(0, 123, 132), px(69, 0, 186)]);
    assert_eq!(control.active_pattern(), Pattern::Rainbow);
}

#[test]
fn control_tick_renders_the_twinkle_with_the_random_bytes() {
    let mut control = ControlLoop::starting_at(0);
    control.on_signal();
    let mut frame = [px(10, 20, 5), px(0, 8, 9), px(255, 255, 255)];
    control.render_at(&mut frame, &[1, 2, 3], 0, CYCLE);
    assert_eq!(frame, [px(2, 12, 0), px(249, 6, 0), px(247, 247, 247)]);
}

#[test]
fn control_tick_renders_the_breath() {
    let mut control = ControlLoop::starting_at(0);
    control.on_signal();
    control.on_signal();
    let mut frame = [px(1, 1, 1); 2];
    for _ in 0..128 {
        control.render_at(&mut frame, &[], 0, CYCLE);
    }
    assert_eq!(frame, [px(37, 0, 0); 2]);
}

#[test]
fn control_tick_renders_the_alternating_pattern_by_the_given_clock() {
    let mut control = ControlLoop::starting_at(100);
    for _ in 0..3 {
        control.on_signal();
    }
    let mut frame = [px(0, 0, 0); 3];
    control.render_at(&mut frame, &[], 200, CYCLE);
    assert_eq!(frame, [px(255, 0, 0), px(0, 128, 0), px(255, 0, 0)]);
    control.render_at(&mut frame, &[], 100 + CYCLE, CYCLE);
    assert_eq!(frame, [px(255, 0, 0), px(0, 0, 255), px(255, 0, 0)]);
}

#[test]
fn control_tick_renders_the_comet() {
    let mut control = ControlLoop::starting_at(0);
    for _ in 0..4 {
        control.on_signal();
    }
    let mut frame = [px(0, 0, 0); 5];
    control.render_at(&mut frame, &[], 0, CYCLE);
    assert_eq!(
        frame,
        [px(180, 75, 0), px(180, 75, 0), px(180, 75, 0), px(0, 0, 0), px(0, 0, 0)]
    );
}

#[test]
fn control_keeps_each_generator_state_while_another_is_active() {
    let mut control = ControlLoop::starting_at(0);
    let mut frame = [px(0, 0, 0); 4];
    // Three rainbow frames, then once round the cycle with a frame of each.
    for _ in 0..3 {
        control.render_at(&mut frame, &[], 0, CYCLE);
    }
    for _ in 0..5 {
        control.on_signal();
        if control.active_pattern() != Pattern::Rainbow {
            control.render_at(&mut frame, &[0, 0], 0, CYCLE);
        }
    }
    // The rainbow goes on with its fourth frame.
    control.render_at(&mut frame, &[], 0, CYCLE);
    assert_eq!(frame[0], px(243, 12, 0));
    // And the comet, back in turn, with its second.
    for _ in 0..4 {
        control.on_signal();
    }
    let mut strip = [px(0, 0, 0); 5];
    control.render_at(&mut strip, &[], 0, CYCLE);
    assert_eq!(
        strip,
        [px(105, 150, 0), px(105, 150, 0), px(105, 150, 0), px(105, 150, 0), px(0, 0, 0)]
    );
}

#[test]
fn control_render_by_the_clock() {
    let mut control = ControlLoop::new();
    let mut frame = [px(0, 0, 0); 4];
    control.render(&mut frame, &[]);
    assert_eq!(frame, [px(252, 3, 0), px(60, 195, 0), px(0, 123, 132), px(69, 0, 186)]);
    for _ in 0..3 {
        control.on_signal();
    }
    control.render(&mut frame, &[]);
    assert_eq!(frame, [px(255, 0, 0), px(0, 128, 0), px(255, 0, 0), px(0, 128, 0)]);
    control.render(&mut frame, &[]);
    assert_eq!(frame, [px(0, 128, 0), px(255, 0, 0), px(0, 128, 0), px(255, 0, 0)]);
}

#[test]
fn press_hold_and_release_advance_the_pattern_once() {
    let mut monitor = MonitorState::AwaitingPress;
    let mut channel = EventChannel::new();
    let mut control = ControlLoop::starting_at(0);
    let mut events = vec![
        InputEvent::FallingEdge,
        InputEvent::DebounceElapsed { still_low: true },
    ];
    for _ in 0..500 {
        events.push(InputEvent::DebounceElapsed { still_low: true });
    }
    events.push(InputEvent::RisingEdge);
    let mut stored = 0;
    for event in events {
        let reaction = button_step(monitor, event);
        monitor = reaction.next;
        if reaction.post && channel.send() == SendOutcome::Stored {
            stored += 1;
        }
    }
    assert_eq!(stored, 1);
    assert_eq!(monitor, MonitorState::AwaitingPress);
    let mut advances = 0;
    while channel.try_receive() == Some(Signal) {
        control.on_signal();
        advances += 1;
    }
    assert_eq!(advances, 1);
    assert_eq!(control.active_pattern(), Pattern::Twinkle);
    assert_eq!(channel.try_receive(), None);
}

#[test]
fn presses_faster_than_the_control_loop_coalesce() {
    let mut monitor = MonitorState::AwaitingPress;
    let mut channel = EventChannel::new();
    let mut control = ControlLoop::starting_at(0);
    let mut outcomes = Vec::new();
    for _ in 0..3 {
        for event in [
            InputEvent::FallingEdge,
            InputEvent::DebounceElapsed { still_low: true },
            InputEvent::RisingEdge,
        ] {
            let reaction = button_step(monitor, event);
            monitor = reaction.next;
            if reaction.post {
                outcomes.push(channel.send());
            }
        }
    }
    assert_eq!(outcomes, [SendOutcome::Stored, SendOutcome::Dropped, SendOutcome::Dropped]);
    let mut advances = 0;
    while channel.try_receive().is_some() {
        control.on_signal();
        advances += 1;
    }
    assert_eq!(advances, 1);
    assert_eq!(control.active_pattern(), Pattern::Twinkle);
}

#[test]
fn control_loop_taking_the_signal_during_the_hold_advances_once() {
    let mut monitor = MonitorState::AwaitingPress;
    let mut channel = EventChannel::new();
    let mut control = ControlLoop::starting_at(0);
    let events = [
        InputEvent::FallingEdge,
        InputEvent::DebounceElapsed { still_low: true },
        InputEvent::FallingEdge,
        InputEvent::DebounceElapsed { still_low: true },
        InputEvent::RisingEdge,
    ];
    let mut advances = 0;
    for event in events {
        if channel.try_receive().is_some() {
            control.on_signal();
            advances += 1;
        }
        let reaction = button_step(monitor, event);
        monitor = reaction.next;
        if reaction.post {
            channel.send();
        }
    }
    if channel.try_receive().is_some() {
        control.on_signal();
        advances += 1;
    }
    assert_eq!(advances, 1);
    assert_eq!(control.active_pattern(), Pattern::Twinkle);
    assert_eq!(monitor, MonitorState::AwaitingPress);
}
