use iced_pancurses::event::Event;
use iced_pancurses::event::MouseEvent;
use iced_pancurses::event::RawEvent;
use iced_pancurses::event::RawMouseButton;
use iced_pancurses::event::RawMouseKind;
use iced_pancurses::event::translate;
use iced_pancurses::shell::CursorPosition;
use iced_pancurses::shell::MessageQueue;
use iced_pancurses::shell::SubscriptionPool;
use iced_pancurses::shell::collect_messages;
use iced_pancurses::shell::process_tick;
use iced_pancurses::shell::refresh_delay_ms;
use iced_pancurses::shell::track_cursor;

#[test]
fn queued_result_reaches_the_next_tick_exactly_once() {
    // A command resolving immediately pushes its message; the next tick's
    // update sees it exactly once even with no input events that tick.
    let mut queue: MessageQueue<&str> = MessageQueue::new();
    queue.push("done");

    let no_events: Vec<Event> = vec![];
    let (cursor, messages) =
        process_tick(CursorPosition::OffSurface, &no_events, vec![], queue.drain());
    assert_eq!(cursor, CursorPosition::OffSurface);
    assert_eq!(messages, vec!["done"]);

    // The following tick sees nothing: the drain took everything.
    let (_, messages) =
        process_tick(CursorPosition::OffSurface, &no_events, vec![], queue.drain());
    assert_eq!(messages, Vec::<&str>::new());
}

#[test]
fn queue_drains_in_fifo_order() {
    let mut queue: MessageQueue<u32> = MessageQueue::new();
    queue.push(1);
    queue.push(2);
    queue.push(3);
    assert_eq!(queue.len(), 3);
    assert_eq!(queue.drain(), vec![1, 2, 3]);
    assert_eq!(queue.len(), 0);
}

#[test]
fn interaction_messages_come_before_background_results() {
    let merged = collect_messages(vec!["click"], vec!["loaded", "saved"]);
    assert_eq!(merged, vec!["click", "loaded", "saved"]);
}

#[test]
fn cursor_starts_off_surface_and_follows_last_move() {
    let no_events: Vec<Event> = vec![];
    assert_eq!(
        track_cursor(CursorPosition::OffSurface, &no_events),
        CursorPosition::OffSurface
    );

    let mut events = translate(RawEvent::Mouse(RawMouseKind::Moved, 2, 3));
    events.extend(translate(RawEvent::Mouse(RawMouseKind::Down(RawMouseButton::Left), 5, 10)));
    let cursor = track_cursor(CursorPosition::OffSurface, &events);
    assert_eq!(cursor, CursorPosition::At { column: 5, row: 10 });

    // A tick without cursor moves keeps the tracked position.
    let click_only = vec![Event::Mouse(MouseEvent::ButtonReleased(
        iced_pancurses::event::MouseButton::Left,
    ))];
    assert_eq!(track_cursor(cursor, &click_only), cursor);
}

#[test]
fn subscription_pool_starts_only_newly_needed_sources() {
    let mut pool = SubscriptionPool::new();
    let first = pool.update(&vec![1, 2]);
    assert_eq!(first, vec![1, 2]);

    // 2 keeps running, 3 is new, 1 is dropped.
    let second = pool.update(&vec![2, 3]);
    assert_eq!(second, vec![3]);

    // Reissuing the same description starts nothing.
    let third = pool.update(&vec![2, 3]);
    assert_eq!(third, Vec::<u64>::new());
}

#[test]
fn refresh_delay_is_millis_per_frame() {
    assert_eq!(refresh_delay_ms(30), 33);
    assert_eq!(refresh_delay_ms(60), 16);
    assert_eq!(refresh_delay_ms(1), 1000);
}
