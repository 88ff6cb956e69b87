use rustiebox::card::Card;
use rustiebox::ceiling::CeilingLock;
use rustiebox::cycles::{is_due, wrap_add, CYCLES_10_MS};
use rustiebox::debounce::{Debounce, PressKind};
use rustiebox::events::{Button, Events};
use rustiebox::queue::{EventQueue, EVENT_QUEUE_CAPACITY};
use rustiebox::sched::Scheduler;
use rustiebox::tagpoll::TagPoller;
use rustiebox::tasks::{button_tick, press_event, publish_block};

fn uid(bytes: &[u8]) -> Vec<u8> {
    bytes.to_vec()
}

#[test]
fn tag_reentry_needs_empty_cycle() {
    let mut poller = TagPoller::new();
    // First sight of tag A: reported.
    assert_eq!(poller.check_for_new_tag(Some(uid(&[1, 2, 3, 4]))), Some(uid(&[1, 2, 3, 4])));
    // Still on the reader: not reported again.
    assert_eq!(poller.check_for_new_tag(Some(uid(&[1, 2, 3, 4]))), None);
    assert_eq!(poller.check_for_new_tag(Some(uid(&[1, 2, 3, 4]))), None);
    // Removed for one cycle (an expected outcome, not an error)...
    assert_eq!(poller.check_for_new_tag(None), None);
    // ...and re-presented: reported a second time.
    assert_eq!(poller.check_for_new_tag(Some(uid(&[1, 2, 3, 4]))), Some(uid(&[1, 2, 3, 4])));
}

#[test]
fn tag_change_without_removal_is_reported() {
    let mut poller = TagPoller::new();
    assert_eq!(poller.check_for_new_tag(Some(uid(&[1, 2, 3, 4]))), Some(uid(&[1, 2, 3, 4])));
    // A different identifier in the very next cycle is a new tag.
    assert_eq!(poller.check_for_new_tag(Some(uid(&[9, 9, 9, 9]))), Some(uid(&[9, 9, 9, 9])));
}

#[test]
fn queue_is_fifo_and_bounded() {
    let mut queue = EventQueue::new();
    assert_eq!(queue.dequeue(), None);
    for k in 0..EVENT_QUEUE_CAPACITY {
        let button = if k % 2 == 0 { Button::Up } else { Button::Down };
        assert!(queue.enqueue(Events::ButtonPressedShort(button)));
    }
    // All slots occupied: the ninth event is refused, not silently lost.
    assert!(!queue.enqueue(Events::ButtonPressedLong(Button::PlayPause)));
    // Drain in order of arrival.
    for k in 0..EVENT_QUEUE_CAPACITY {
        let button = if k % 2 == 0 { Button::Up } else { Button::Down };
        assert_eq!(queue.dequeue(), Some(Events::ButtonPressedShort(button)));
    }
    assert_eq!(queue.dequeue(), None);
    // Refusal freed nothing and lost nothing; the queue works again.
    assert!(queue.enqueue(Events::ButtonPressedLong(Button::Up)));
    assert_eq!(queue.dequeue(), Some(Events::ButtonPressedLong(Button::Up)));
}

#[test]
fn scheduler_runs_higher_priority_first() {
    // Two tasks due at the same tick: the higher priority runs first.
    let mut sched = Scheduler::new(&vec![4u8, 5u8]);
    assert!(sched.schedule(0, 1000));
    assert!(sched.schedule(1, 1000));
    assert_eq!(sched.pop_due(1000), Some(1));
    assert_eq!(sched.pop_due(1000), Some(0));
    assert_eq!(sched.pop_due(1000), None);
}

#[test]
fn scheduler_never_fires_early_and_orders_by_deadline() {
    let mut sched = Scheduler::new(&vec![5u8, 5u8, 4u8]);
    assert!(sched.schedule(0, 200));
    assert!(sched.schedule(1, 100));
    assert!(sched.schedule(2, 50));
    // Nothing is due before its deadline.
    assert_eq!(sched.pop_due(49), None);
    // The lower-priority task is alone in being due.
    assert_eq!(sched.pop_due(50), Some(2));
    // Equal priority: the earlier deadline fires first.
    assert_eq!(sched.pop_due(500), Some(1));
    assert_eq!(sched.pop_due(500), Some(0));
    assert_eq!(sched.pop_due(500), None);
}

#[test]
fn scheduler_refuses_second_pending_invocation() {
    let mut sched = Scheduler::new(&vec![5u8]);
    assert!(sched.schedule(0, 10));
    // The pending-invocation slot is single: a second request is refused
    // and the first stands unchanged.
    assert!(!sched.schedule(0, 20));
    assert_eq!(sched.pop_due(10), Some(0));
    // Once consumed, the task may be scheduled again.
    assert!(sched.schedule(0, 20));
    assert_eq!(sched.pop_due(20), Some(0));
}

#[test]
fn button_tick_publishes_one_event_per_press() {
    let mut machine = Debounce::new_default();
    let mut queue = EventQueue::new();
    assert!(machine.on_falling_edge());
    // Held for three ticks, then released.
    for _ in 0..3 {
        let outcome = button_tick(&mut machine, &mut queue, Button::PlayPause, true);
        assert_eq!(outcome.emitted, None);
        assert!(outcome.published);
        assert!(outcome.reschedule);
    }
    let outcome = button_tick(&mut machine, &mut queue, Button::PlayPause, false);
    assert_eq!(outcome.emitted, Some(PressKind::Short));
    assert!(outcome.published);
    assert!(outcome.reschedule);
    // Cooldown tick with the pin released: machine re-arms, no more ticks.
    let outcome = button_tick(&mut machine, &mut queue, Button::PlayPause, false);
    assert_eq!(outcome.emitted, None);
    assert!(!outcome.reschedule);
    // Exactly one event reached the queue.
    assert_eq!(queue.dequeue(), Some(Events::ButtonPressedShort(Button::PlayPause)));
    assert_eq!(queue.dequeue(), None);
}

#[test]
fn press_event_maps_kinds() {
    assert_eq!(press_event(Button::Up, PressKind::Short), Events::ButtonPressedShort(Button::Up));
    assert_eq!(press_event(Button::Down, PressKind::Long), Events::ButtonPressedLong(Button::Down));
}

#[test]
fn publish_block_decodes_and_enqueues() {
    let mut queue = EventQueue::new();
    let mut block = [0u8; 16];
    block[0] = 0x13;
    block[1] = 0x37;
    block[2] = 0xB3;
    block[3] = 0x47;
    block[4] = 0x01;
    block[5] = 0x05;
    block[6] = 0x02;
    let outcome = publish_block(&mut queue, block);
    let card = outcome.card.expect("valid cookie must decode");
    assert!(outcome.published);
    assert_eq!(card, Card::try_from(block).unwrap());
    assert_eq!(queue.dequeue(), Some(Events::NewTag(card)));
    // A block without the cookie publishes nothing and is no error.
    let outcome = publish_block(&mut queue, [0u8; 16]);
    assert_eq!(outcome.card, None);
    assert!(outcome.published);
    assert_eq!(queue.dequeue(), None);
}

#[test]
fn wrapped_deadlines_cross_the_counter_period() {
    // A deadline one tick ahead of a reading near the wrap point.
    let near_wrap = u32::MAX - CYCLES_10_MS / 2;
    let deadline = wrap_add(near_wrap, CYCLES_10_MS);
    assert!(deadline < CYCLES_10_MS);  // it wrapped
    assert!(!is_due(near_wrap, deadline));
    assert!(!is_due(wrap_add(near_wrap, CYCLES_10_MS - 1), deadline));
    assert!(is_due(deadline, deadline));
    assert!(is_due(wrap_add(deadline, 5), deadline));
    // Plain arithmetic agrees away from the wrap point.
    assert_eq!(wrap_add(1000, 234), 1234);
    assert!(is_due(1234, 1000));
    assert!(!is_due(999, 1000));
}

#[test]
fn ceiling_raises_holder_to_highest_contender() {
    // The button states are shared by the interrupt-bound tick tasks
    // (priority 5) and the idle loop (priority 0).
    let lock = CeilingLock::new(&vec![5u8, 5u8, 5u8, 0u8]);
    assert_eq!(lock.ceiling, 5);
    // Idle inside the critical section runs at the ceiling...
    assert_eq!(lock.effective_priority(0), 5);
    // ...a task already at or above the ceiling keeps its own priority.
    assert_eq!(lock.effective_priority(5), 5);
    assert_eq!(lock.effective_priority(7), 7);
    let empty = CeilingLock::new(&Vec::new());
    assert_eq!(empty.ceiling, 0);
}
