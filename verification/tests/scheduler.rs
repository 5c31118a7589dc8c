use frame_engine::context::PhysicalSize;
use frame_engine::scheduler::{
    classify, run, Action, Event, FrameScheduler, Phase, Recovery, SurfaceFailure,
};

const SIZE: PhysicalSize = PhysicalSize { width: 800, height: 600 };

const PHASES: [Phase; 6] = [
    Phase::Idle,
    Phase::Updating,
    Phase::Rendering,
    Phase::Presenting,
    Phase::Resizing,
    Phase::Terminating,
];

fn at(phase: Phase) -> FrameScheduler {
    FrameScheduler { phase, size: SIZE }
}

fn every_event() -> Vec<Event> {
    vec![
        Event::RedrawRequested,
        Event::Resized(PhysicalSize { width: 320, height: 240 }),
        Event::Resized(PhysicalSize { width: 0, height: 240 }),
        Event::CloseRequested,
        Event::EscapePressed,
        Event::Updated,
        Event::Recorded,
        Event::AcquireFailed(SurfaceFailure::Timeout),
        Event::AcquireFailed(SurfaceFailure::Outdated),
        Event::AcquireFailed(SurfaceFailure::Lost),
        Event::AcquireFailed(SurfaceFailure::OutOfMemory),
        Event::AcquireFailed(SurfaceFailure::Other),
        Event::Presented,
        Event::Reconfigured,
    ]
}

#[test]
fn failures_are_classified() {
    assert_eq!(classify(SurfaceFailure::Lost), Recovery::Reconfigure);
    assert_eq!(classify(SurfaceFailure::OutOfMemory), Recovery::Terminate);
    assert_eq!(classify(SurfaceFailure::Timeout), Recovery::Skip);
    assert_eq!(classify(SurfaceFailure::Outdated), Recovery::Skip);
    assert_eq!(classify(SurfaceFailure::Other), Recovery::Skip);
}

#[test]
fn a_new_scheduler_is_idle() {
    assert_eq!(FrameScheduler::new(SIZE), at(Phase::Idle));
}

#[test]
fn a_frame_runs_through_the_cycle() {
    let mut s = FrameScheduler::new(SIZE);
    assert_eq!(s.step(Event::RedrawRequested), Action::Update);
    assert_eq!(s.phase, Phase::Updating);
    assert_eq!(s.step(Event::Updated), Action::Render);
    assert_eq!(s.phase, Phase::Rendering);
    assert_eq!(s.step(Event::Recorded), Action::Present);
    assert_eq!(s.phase, Phase::Presenting);
    assert_eq!(s.step(Event::Presented), Action::Wait);
    assert_eq!(s, at(Phase::Idle));
}

#[test]
fn lost_surface_is_reconfigured_once_with_the_stored_size() {
    let mut s = at(Phase::Rendering);
    assert_eq!(
        s.step(Event::AcquireFailed(SurfaceFailure::Lost)),
        Action::Reconfigure(SIZE)
    );
    assert_eq!(s, at(Phase::Resizing));
    let actions = run(
        &mut s,
        &vec![Event::Reconfigured, Event::RedrawRequested, Event::Updated],
    );
    assert_eq!(actions, vec![Action::Wait, Action::Update, Action::Render]);
    assert_eq!(s, at(Phase::Rendering));
}

#[test]
fn lost_surface_after_a_resize_uses_the_new_size() {
    let new_size = PhysicalSize { width: 1024, height: 768 };
    let mut s = FrameScheduler::new(SIZE);
    let actions = run(
        &mut s,
        &vec![
            Event::Resized(new_size),
            Event::Reconfigured,
            Event::RedrawRequested,
            Event::Updated,
            Event::AcquireFailed(SurfaceFailure::Lost),
        ],
    );
    assert_eq!(
        actions,
        vec![
            Action::Reconfigure(new_size),
            Action::Wait,
            Action::Update,
            Action::Render,
            Action::Reconfigure(new_size),
        ]
    );
    assert_eq!(s.phase, Phase::Resizing);
    assert_eq!(s.size, new_size);
}

#[test]
fn out_of_memory_ends_the_loop_without_reconfiguring() {
    let mut s = at(Phase::Rendering);
    assert_eq!(s.step(Event::AcquireFailed(SurfaceFailure::OutOfMemory)), Action::Exit);
    assert_eq!(s, at(Phase::Terminating));
    let events = every_event();
    let actions = run(&mut s, &events);
    assert_eq!(actions, vec![Action::Wait; events.len()]);
    assert_eq!(s, at(Phase::Terminating));
}

#[test]
fn other_failures_skip_the_frame() {
    for failure in [SurfaceFailure::Timeout, SurfaceFailure::Outdated, SurfaceFailure::Other] {
        let mut s = at(Phase::Rendering);
        assert_eq!(s.step(Event::AcquireFailed(failure)), Action::Skip(failure));
        assert_eq!(s, at(Phase::Idle));
        assert_eq!(s.step(Event::RedrawRequested), Action::Update);
    }
}

#[test]
fn a_failure_outside_rendering_is_ignored() {
    for phase in [Phase::Idle, Phase::Updating, Phase::Presenting, Phase::Resizing] {
        for failure in [SurfaceFailure::Lost, SurfaceFailure::OutOfMemory, SurfaceFailure::Other] {
            let mut s = at(phase);
            assert_eq!(s.step(Event::AcquireFailed(failure)), Action::Wait);
            assert_eq!(s, at(phase));
        }
    }
}

#[test]
fn a_drawable_size_is_taken_up_in_every_live_phase() {
    let new_size = PhysicalSize { width: 1, height: 7 };
    for phase in [Phase::Idle, Phase::Updating, Phase::Rendering, Phase::Presenting, Phase::Resizing]
    {
        let mut s = at(phase);
        assert_eq!(s.step(Event::Resized(new_size)), Action::Reconfigure(new_size));
        assert_eq!(s, FrameScheduler { phase: Phase::Resizing, size: new_size });
        assert_eq!(s.step(Event::Reconfigured), Action::Wait);
        assert_eq!(s, FrameScheduler { phase: Phase::Idle, size: new_size });
    }
}

#[test]
fn a_size_with_a_zero_dimension_is_ignored() {
    for phase in PHASES {
        for size in [
            PhysicalSize { width: 0, height: 600 },
            PhysicalSize { width: 800, height: 0 },
            PhysicalSize { width: 0, height: 0 },
        ] {
            let mut s = at(phase);
            assert_eq!(s.step(Event::Resized(size)), Action::Wait);
            assert_eq!(s, at(phase));
        }
    }
}

#[test]
fn close_and_escape_end_the_loop_from_every_live_phase() {
    for phase in [Phase::Idle, Phase::Updating, Phase::Rendering, Phase::Presenting, Phase::Resizing]
    {
        for event in [Event::CloseRequested, Event::EscapePressed] {
            let mut s = at(phase);
            assert_eq!(s.step(event), Action::Exit);
            assert_eq!(s, at(Phase::Terminating));
        }
    }
}

#[test]
fn a_terminated_scheduler_asks_nothing() {
    for event in every_event() {
        let mut s = at(Phase::Terminating);
        assert_eq!(s.step(event), Action::Wait);
        assert_eq!(s, at(Phase::Terminating));
    }
}

#[test]
fn events_that_do_not_fit_the_phase_are_ignored() {
    let misfits = [
        (Phase::Updating, Event::RedrawRequested),
        (Phase::Rendering, Event::RedrawRequested),
        (Phase::Presenting, Event::RedrawRequested),
        (Phase::Resizing, Event::RedrawRequested),
        (Phase::Idle, Event::Updated),
        (Phase::Rendering, Event::Updated),
        (Phase::Idle, Event::Recorded),
        (Phase::Updating, Event::Recorded),
        (Phase::Presenting, Event::Recorded),
        (Phase::Idle, Event::Presented),
        (Phase::Rendering, Event::Presented),
        (Phase::Idle, Event::Reconfigured),
        (Phase::Rendering, Event::Reconfigured),
    ];
    for (phase, event) in misfits {
        let mut s = at(phase);
        assert_eq!(s.step(event), Action::Wait);
        assert_eq!(s, at(phase));
    }
}

#[test]
fn run_of_no_events_asks_nothing() {
    let mut s = at(Phase::Presenting);
    assert_eq!(run(&mut s, &vec![]), vec![]);
    assert_eq!(s, at(Phase::Presenting));
}

#[test]
fn run_gives_one_action_for_each_event() {
    let mut s = FrameScheduler::new(SIZE);
    let events = vec![
        Event::RedrawRequested,
        Event::Updated,
        Event::Recorded,
        Event::Presented,
        Event::RedrawRequested,
        Event::Updated,
        Event::AcquireFailed(SurfaceFailure::Timeout),
        Event::Resized(PhysicalSize { width: 0, height: 0 }),
        Event::RedrawRequested,
        Event::EscapePressed,
        Event::RedrawRequested,
    ];
    let actions = run(&mut s, &events);
    assert_eq!(
        actions,
        vec![
            Action::Update,
            Action::Render,
            Action::Present,
            Action::Wait,
            Action::Update,
            Action::Render,
            Action::Skip(SurfaceFailure::Timeout),
            Action::Wait,
            Action::Update,
            Action::Exit,
            Action::Wait,
        ]
    );
    assert_eq!(s, at(Phase::Terminating));
}

#[test]
fn run_is_the_same_as_stepping() {
    let events = every_event();
    for phase in PHASES {
        let mut stepped = at(phase);
        let mut expected = Vec::new();
        for e in &events {
            expected.push(stepped.step(*e));
        }
        let mut ran = at(phase);
        assert_eq!(run(&mut ran, &events), expected);
        assert_eq!(ran, stepped);
    }
}

#[test]
fn every_render_follows_an_update() {
    let mut s = FrameScheduler::new(SIZE);
    let events = vec![
        Event::Updated,
        Event::RedrawRequested,
        Event::RedrawRequested,
        Event::Resized(PhysicalSize { width: 0, height: 1 }),
        Event::Updated,
        Event::Updated,
    ];
    let actions = run(&mut s, &events);
    assert_eq!(
        actions,
        vec![
            Action::Wait,
            Action::Update,
            Action::Wait,
            Action::Wait,
            Action::Render,
            Action::Wait,
        ]
    );
}
