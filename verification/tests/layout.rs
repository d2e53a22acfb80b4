use toip_tui::message_log::Message;
use toip_tui::message_log::MessageLog;
use toip_tui::wrap_fit::compute_layout;

fn msg(author: &str, content: &str) -> Message {
    Message { author: author.to_string(), content: content.to_string() }
}

fn log_of(contents: &[&str]) -> MessageLog {
    let mut log = MessageLog::new();
    for (i, c) in contents.iter().enumerate() {
        log.append(msg(&format!("peer{}", i), c));
    }
    log
}

#[test]
fn two_newest_fit_oldest_evicted() {
    // width 40: each message wraps to one line, so each block is 3 rows tall;
    // an 8-row area has room for two blocks but not three.
    let mut log = log_of(&["msg A", "msg B", "msg C"]);
    let layout = log.fit_and_evict(40, 8);
    assert_eq!(layout.drop_count, 1);
    assert_eq!(log.len(), 2);
    assert_eq!(log.get(0).content, "msg B");
    assert_eq!(log.get(1).content, "msg C");
    // bottom-anchored: B above C, C's bottom edge on the area's bottom edge
    assert_eq!(layout.slots.len(), 2);
    assert_eq!(layout.slots[0].y, 2);
    assert_eq!(layout.slots[0].height, 3);
    assert_eq!(layout.slots[1].y, 5);
    assert_eq!(layout.slots[1].height, 3);
    assert_eq!(layout.slots[1].y + layout.slots[1].height, 8);
}

#[test]
fn all_messages_kept_when_total_exactly_fits() {
    // three one-line blocks of height 3 sum to 9: they fit a 9-row area
    let mut log = log_of(&["msg A", "msg B", "msg C"]);
    let layout = log.fit_and_evict(40, 9);
    assert_eq!(layout.drop_count, 0);
    assert_eq!(log.len(), 3);
    assert_eq!(layout.slots.len(), 3);
    assert_eq!(layout.slots[0].y, 0);
    assert_eq!(layout.slots[2].y + layout.slots[2].height, 9);
}

#[test]
fn layout_is_pushed_toward_the_bottom() {
    let mut log = log_of(&["only one"]);
    let layout = log.fit_and_evict(40, 20);
    assert_eq!(layout.drop_count, 0);
    assert_eq!(layout.slots.len(), 1);
    assert_eq!(layout.slots[0].height, 3);
    assert_eq!(layout.slots[0].y, 17);
}

#[test]
fn word_wrap_breaks_at_whitespace() {
    // at width 10 the message wraps at word boundaries into 2 lines
    let text = "a b c d e f g h";
    let msgs = vec![msg("peer", text)];
    let layout = compute_layout(&msgs, 10, 100);
    assert_eq!(layout.slots.len(), 1);
    let wrapped = textwrap::wrap(text, 10);
    for line in wrapped.iter() {
        assert!(line.chars().count() <= 10);
    }
    assert_eq!(wrapped.len(), 2);
    assert_eq!(layout.slots[0].height as usize, wrapped.len() + 2);
}

#[test]
fn word_wrap_count_is_not_a_character_count() {
    // 17 characters at width 10 would be 2 lines by pure character count,
    // but breaking at whitespace needs 3
    let text = "aaaaa bbbbb ccccc";
    let msgs = vec![msg("peer", text)];
    let layout = compute_layout(&msgs, 10, 100);
    assert_eq!(textwrap::wrap(text, 10).len(), 3);
    assert_eq!(layout.slots[0].height, 5);
}

#[test]
fn newest_message_kept_even_when_it_overflows() {
    let long = "word ".repeat(40);
    let mut log = log_of(&["short one", &long]);
    // at width 10 the long message alone is far taller than 4 rows
    let layout = log.fit_and_evict(10, 4);
    assert_eq!(layout.drop_count, 1);
    assert_eq!(log.len(), 1);
    assert_eq!(layout.slots.len(), 1);
    // its one slot is clipped to the whole area
    assert_eq!(layout.slots[0].y, 0);
    assert_eq!(layout.slots[0].height, 4);
}

#[test]
fn empty_log_yields_empty_layout() {
    let mut log = MessageLog::new();
    let layout = log.fit_and_evict(40, 9);
    assert_eq!(layout.drop_count, 0);
    assert_eq!(layout.slots.len(), 0);
    assert_eq!(log.len(), 0);
}

#[test]
fn zero_sized_viewport_does_not_panic() {
    let msgs = vec![msg("peer", "hello there")];
    let layout = compute_layout(&msgs, 0, 0);
    // the newest message is still attempted, in a slot clipped to nothing
    assert_eq!(layout.drop_count, 0);
    assert_eq!(layout.slots.len(), 1);
    assert_eq!(layout.slots[0].y, 0);
    assert_eq!(layout.slots[0].height, 0);
}

#[test]
fn log_append_keeps_order_and_evict_drops_prefix() {
    let mut log = log_of(&["one", "two", "three"]);
    assert_eq!(log.len(), 3);
    let snap = log.snapshot();
    assert_eq!(snap.len(), 3);
    assert_eq!(snap[0].content, "one");
    assert_eq!(snap[2].content, "three");
    log.evict_front(2);
    assert_eq!(log.len(), 1);
    assert_eq!(log.get(0).content, "three");
    // the snapshot is an independent copy
    assert_eq!(snap[0].content, "one");
}
