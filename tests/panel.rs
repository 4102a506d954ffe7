use inky_frame::command::Command;
use inky_frame::run::{Outcome, Run, Step};
use inky_frame::{Action, InkyFrame5_7, OctColor};

#[derive(Debug, Clone, Copy, PartialEq, Eq)]
enum Event {
    Line(bool),
    Write(bool, u8),
    Reset(bool),
    Delay(u32),
    Idle,
}

/// A transport that records what a run asks of it. The busy signal reads
/// busy `busy_polls` times per wait; the write numbered `fail_at` fails.
struct Mock {
    events: Vec<Event>,
    busy_polls: u32,
    busy_left: u32,
    writes: usize,
    fail_at: Option<usize>,
}

impl Mock {
    fn new(busy_polls: u32, fail_at: Option<usize>) -> Mock {
        Mock { events: Vec::new(), busy_polls, busy_left: busy_polls, writes: 0, fail_at }
    }

    fn write(&mut self, line: bool, byte: u8) -> Outcome {
        self.events.push(Event::Line(line));
        if Some(self.writes) == self.fail_at {
            return Outcome::Failed;
        }
        self.writes += 1;
        self.events.push(Event::Write(line, byte));
        Outcome::Done
    }

    fn perform(&mut self, step: Step, frame: &[u8]) -> Outcome {
        match step {
            Step::Write(line, byte) => self.write(line, byte),
            Step::WriteFrameByte(i) => self.write(true, frame[i]),
            Step::ResetLine(level) => {
                self.events.push(Event::Reset(level));
                Outcome::Done
            }
            Step::Delay(ms) => {
                self.events.push(Event::Delay(ms));
                Outcome::Done
            }
            Step::PollBusy => {
                if self.busy_left > 0 {
                    self.busy_left -= 1;
                    Outcome::Busy
                } else {
                    self.busy_left = self.busy_polls;
                    self.events.push(Event::Idle);
                    Outcome::Done
                }
            }
        }
    }

    fn run(&mut self, plan: Vec<Action>, frame: &[u8]) -> bool {
        let mut run = Run::new(plan, frame.len());
        let mut steps = 0;
        while let Some(step) = run.next() {
            let outcome = self.perform(step, frame);
            run.advance(outcome);
            if outcome == Outcome::Failed {
                assert_eq!(run.next(), None);
                return false;
            }
            steps += 1;
            assert!(steps < 1_000_000);
        }
        true
    }
}

fn record(plan: &[Action], frame: &[u8]) -> Vec<Event> {
    let mut mock = Mock::new(2, None);
    assert!(mock.run(plan.to_vec(), frame));
    mock.events
}

fn writes(events: &[Event]) -> Vec<(bool, u8)> {
    events
        .iter()
        .filter_map(|e| match e {
            Event::Write(l, b) => Some((*l, *b)),
            _ => None,
        })
        .collect()
}

fn lines_before_writes_match(events: &[Event]) -> bool {
    let mut last: Option<bool> = None;
    for e in events {
        match e {
            Event::Line(l) => last = Some(*l),
            Event::Write(l, _) => {
                if last != Some(*l) {
                    return false;
                }
            }
            _ => {}
        }
    }
    true
}

#[test]
fn initialize_sequence() {
    let panel = InkyFrame5_7::new();
    let events = record(&panel.init(), &[]);
    assert!(lines_before_writes_match(&events));
    let w = writes(&events);
    let commands: Vec<u8> = w.iter().filter(|(l, _)| !l).map(|(_, b)| *b).collect();
    assert_eq!(
        commands,
        vec![0x00, 0x01, 0x03, 0x06, 0x30, 0x40, 0x50, 0x60, 0x61, 0xE3, 0x50]
    );
    let expected: Vec<(bool, u8)> = vec![
        (false, 0x00), (true, 0xEF), (true, 0x08),
        (false, 0x01), (true, 0x37), (true, 0x00), (true, 0x23), (true, 0x23),
        (false, 0x03), (true, 0x00),
        (false, 0x06), (true, 0xC7), (true, 0xC7), (true, 0x1D),
        (false, 0x30), (true, 0x3C),
        (false, 0x40), (true, 0x00),
        (false, 0x50), (true, 0x37),
        (false, 0x60), (true, 0x22),
        (false, 0x61), (true, 0x02), (true, 0x58), (true, 0x01), (true, 0xC0),
        (false, 0xE3), (true, 0xAA),
        (false, 0x50), (true, 0x37),
    ];
    assert_eq!(w, expected);
    assert_eq!(
        &events[..6],
        &[
            Event::Reset(false),
            Event::Delay(10),
            Event::Reset(true),
            Event::Delay(10),
            Event::Idle,
            Event::Idle,
        ]
    );
    let flash = events.iter().position(|e| *e == Event::Write(true, 0xAA)).unwrap();
    assert_eq!(events[flash + 1], Event::Delay(10));
}

#[test]
fn wake_up_is_initialize() {
    let panel = InkyFrame5_7::new();
    assert_eq!(panel.wake_up(), panel.init());
}

#[test]
fn sleep_sends_check_code_once() {
    let panel = InkyFrame5_7::new();
    let plan = panel.sleep();
    assert_eq!(plan, vec![Action::Command(Command::DeepSleep), Action::Data(0xA5)]);
    let events = record(&plan, &[]);
    assert!(lines_before_writes_match(&events));
    assert_eq!(writes(&events), vec![(false, 0x07), (true, 0xA5)]);
}

#[test]
fn power_off_has_no_payload() {
    let panel = InkyFrame5_7::new();
    assert_eq!(writes(&record(&panel.power_off(), &[])), vec![(false, 0x02)]);
}

#[test]
fn reset_pulses_line_then_waits() {
    let panel = InkyFrame5_7::new();
    assert_eq!(
        panel.reset(),
        vec![
            Action::ResetLow,
            Action::DelayMs(10),
            Action::ResetHigh,
            Action::DelayMs(10),
            Action::WaitUntilIdle,
        ]
    );
}

#[test]
fn update_frame_folds_background_into_vcom() {
    let mut panel = InkyFrame5_7::new();
    let frame = [0x12u8, 0x34, 0x56];
    let w = writes(&record(&panel.update_frame(), &frame));
    assert_eq!(
        w,
        vec![
            (false, 0x50), (true, 0x37),
            (false, 0x61), (true, 0x02), (true, 0x58), (true, 0x01), (true, 0xC0),
            (false, 0x10), (true, 0x12), (true, 0x34), (true, 0x56),
            (false, 0x11),
        ]
    );
    panel.set_background_color(OctColor::Red);
    let w = writes(&record(&panel.update_frame(), &frame));
    assert_eq!(w[1], (true, 0x97));
    panel.set_background_color(OctColor::HiZ);
    let w = writes(&record(&panel.update_frame(), &frame));
    assert_eq!(w[1], (true, 0xF7));
    panel.set_background_color(OctColor::Black);
    let w = writes(&record(&panel.update_frame(), &frame));
    assert_eq!(w[1], (true, 0x17));
}

#[test]
fn update_frame_waits_first() {
    let panel = InkyFrame5_7::new();
    assert_eq!(panel.update_frame()[0], Action::WaitUntilIdle);
}

#[test]
fn display_frame_brackets_every_phase() {
    let panel = InkyFrame5_7::new();
    assert_eq!(
        panel.display_frame(),
        vec![
            Action::WaitUntilIdle,
            Action::Command(Command::PowerOn),
            Action::WaitUntilIdle,
            Action::Command(Command::DisplayRefresh),
            Action::WaitUntilIdle,
            Action::Command(Command::PowerOff),
            Action::WaitUntilIdle,
        ]
    );
}

#[test]
fn update_and_display_is_both() {
    let panel = InkyFrame5_7::new();
    let mut both = panel.update_frame();
    both.extend(panel.display_frame());
    assert_eq!(panel.update_and_display_frame(), both);
}

#[test]
fn clear_frame_streams_background() {
    let mut panel = InkyFrame5_7::new();
    panel.set_background_color(OctColor::Green);
    let plan = panel.clear_frame();
    assert!(plan.contains(&Action::Repeat(0x22, 300 * 448)));
    let frame = vec![0x22u8; 300 * 448];
    let cleared = record(&plan, &[]);
    let mut full = panel.update_frame();
    full.extend(panel.display_frame());
    assert_eq!(cleared, record(&full, &frame));
    assert_eq!(writes(&cleared)[1], (true, 0x57));
}

#[test]
fn panel_dimensions() {
    let panel = InkyFrame5_7::new();
    assert_eq!(panel.width(), 600);
    assert_eq!(panel.height(), 448);
}

#[test]
fn opcodes() {
    assert_eq!(Command::PanelSetting.address(), 0x00);
    assert_eq!(Command::DeepSleep.address(), 0x07);
    assert_eq!(Command::TconResolution.address(), 0x61);
    assert_eq!(Command::FlashMode.address(), 0xE3);
    assert_eq!(Command::TsSet.address(), 0xE5);
}

#[test]
fn run_stops_at_first_failed_write() {
    let panel = InkyFrame5_7::new();
    let mut mock = Mock::new(0, Some(3));
    assert!(!mock.run(panel.init(), &[]));
    assert_eq!(
        writes(&mock.events),
        vec![(false, 0x00), (true, 0xEF), (true, 0x08)]
    );
    assert_eq!(mock.events.last(), Some(&Event::Line(false)));
}

#[test]
fn run_polls_until_idle() {
    let panel = InkyFrame5_7::new();
    let mut run = Run::new(panel.display_frame(), 0);
    assert_eq!(run.next(), Some(Step::PollBusy));
    run.advance(Outcome::Busy);
    assert_eq!(run.next(), Some(Step::PollBusy));
    run.advance(Outcome::Busy);
    assert_eq!(run.next(), Some(Step::PollBusy));
    run.advance(Outcome::Done);
    assert_eq!(run.next(), Some(Step::Write(false, 0x04)));
}

#[test]
fn run_skips_empty_frame() {
    let panel = InkyFrame5_7::new();
    let events = record(&panel.update_frame(), &[]);
    let w = writes(&events);
    assert_eq!(w[w.len() - 2], (false, 0x10));
    assert_eq!(w[w.len() - 1], (false, 0x11));
}

#[test]
fn run_hands_out_frame_indices() {
    let mut run = Run::new(vec![Action::Frame, Action::Repeat(0x33, 2)], 2);
    assert_eq!(run.next(), Some(Step::WriteFrameByte(0)));
    run.advance(Outcome::Done);
    assert_eq!(run.next(), Some(Step::WriteFrameByte(1)));
    run.advance(Outcome::Done);
    assert_eq!(run.next(), Some(Step::Write(true, 0x33)));
    run.advance(Outcome::Done);
    assert_eq!(run.next(), Some(Step::Write(true, 0x33)));
    run.advance(Outcome::Done);
    assert_eq!(run.next(), None);
    run.advance(Outcome::Done);
    assert_eq!(run.next(), None);
}
