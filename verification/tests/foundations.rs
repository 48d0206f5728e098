use lvu::component::{move_index, scroll_by, LayerId, Outbox};
use lvu::components::Layers;
use lvu::geometry::Rect;
use lvu::text::{
    append_clipped, byte_len, contains_text, decimal_text, join, lines_of, order_of, pad_left, pad_right,
    parse_i64, parse_u64, trim, TextOrder,
};
use lvu::width::{char_width, clipped_width, elide_middle};

#[test]
fn rect_covers_its_cells() {
    let rect = Rect::new(2, 3, 4, 5);
    assert_eq!((rect.right(), rect.bottom()), (6, 8));
    assert!(rect.contains(2, 3));
    assert!(rect.contains(5, 7));
    assert!(!rect.contains(6, 3));
    assert!(!rect.contains(2, 8));
    assert!(Rect::zero().is_empty());
    assert_eq!(rect.union(Rect::new(0, 4, 3, 1)), Rect::new(0, 3, 6, 5));
}

#[test]
fn rect_edges_stop_at_the_last_coordinate() {
    let rect = Rect::new(65530, 0, 100, 1);
    assert_eq!(rect.right(), 65535);
}

#[test]
fn ring_goes_round_and_back() {
    assert_eq!(move_index(2, 3, 1), 0);
    assert_eq!(move_index(0, 3, -1), 2);
    assert_eq!(move_index(move_index(1, 5, 3), 5, -3), 1);
    assert_eq!(move_index(4, 0, 1), 0);
    assert_eq!(move_index(0, 4, -9), 3);
}

#[test]
fn scroll_stays_within_its_limit() {
    assert_eq!(scroll_by(3, 10, -5), 0);
    assert_eq!(scroll_by(3, 10, 2), 5);
    assert_eq!(scroll_by(9, 10, 7), 10);
}

#[test]
fn full_outbox_hands_a_request_back() {
    let mut outbox: Outbox<u8> = Outbox::new(2);
    assert_eq!(outbox.push(1), Ok(()));
    assert_eq!(outbox.push(2), Ok(()));
    assert_eq!(outbox.push(3), Err(3));
    assert_eq!(outbox.next_generation(), 1);
    assert_eq!(outbox.next_generation(), 2);
    assert_eq!(outbox.get(1), Some(&2));
    assert_eq!(outbox.drain(), vec![1, 2]);
    assert_eq!(outbox.len(), 0);
}

#[test]
fn top_layer_is_the_last_of_the_stack() {
    let mut layers = Layers::default();
    assert_eq!(layers.top(), None);
    layers.stack.push(LayerId::Settings);
    layers.stack.push(LayerId::Time);
    assert_eq!(layers.top(), Some(LayerId::Time));
}

#[test]
fn numbers_are_written_and_read() {
    assert_eq!(decimal_text(0), "0");
    assert_eq!(decimal_text(18446744073709551615), "18446744073709551615");
    assert_eq!(parse_u64("+42"), Some(42));
    assert_eq!(parse_u64("18446744073709551615"), Some(u64::MAX));
    assert_eq!(parse_u64("18446744073709551616"), None);
    assert_eq!(parse_u64(""), None);
    assert_eq!(parse_u64("+"), None);
    assert_eq!(parse_u64("4 2"), None);
    assert_eq!(parse_i64("-9223372036854775808"), Some(i64::MIN));
    assert_eq!(parse_i64("9223372036854775808"), None);
    assert_eq!(parse_i64("-"), None);
}

#[test]
fn texts_are_padded_joined_and_trimmed() {
    assert_eq!(pad_left("7", 3), "  7");
    assert_eq!(pad_right("ab", 4), "ab  ");
    assert_eq!(pad_right("abc", 2), "abc");
    assert_eq!(join(&vec!["a".to_owned(), "b".to_owned()], ", "), "a, b");
    assert_eq!(join(&Vec::new(), ", "), "");
    assert_eq!(trim(" \t a b\u{a0}\n"), "a b");
    assert_eq!(trim("\u{3000}\u{2029}x\u{200b}\u{85}"), "x\u{200b}");
    assert!(contains_text("abcabd", "abd"));
    assert!(!contains_text("ab", "abc"));
    assert!(contains_text("ab", ""));
}

#[test]
fn texts_are_ordered_by_their_first_difference() {
    assert_eq!(order_of("a", "b"), TextOrder::Before);
    assert_eq!(order_of("ab", "a"), TextOrder::After);
    assert_eq!(order_of("a", "a"), TextOrder::Same);
}

#[test]
fn bytes_are_counted_and_clipped_between_characters() {
    assert_eq!(byte_len("a\u{e9}\u{20ac}"), 6);
    let mut value = "ab".to_owned();
    append_clipped(&mut value, "\u{20ac}\u{20ac}", 7);
    assert_eq!(value, "ab\u{20ac}");
}

#[test]
fn widths_are_those_of_the_screen() {
    assert_eq!(char_width('a'), 1);
    assert_eq!(char_width('\u{4e2d}'), 2);
    assert_eq!(clipped_width("a\u{4e2d}\u{4e2d}", 4), "a\u{4e2d}");
    assert_eq!(clipped_width("abc", 10), "abc");
}

#[test]
fn elided_text_keeps_both_ends() {
    assert_eq!(elide_middle("abcdef", 10), "abcdef");
    let cut = elide_middle("abcdefghij", 5);
    assert_eq!(cut.chars().count(), 5);
    assert!(cut.starts_with("ab"));
    assert!(cut.ends_with("ij"));
    assert!(cut.contains('\u{2026}'));
}

#[test]
fn lines_end_as_those_of_a_file() {
    for text in ["", "\n", "a", "a\n", "a\nb", "a\r\nb\r\n", "a\r\n\r\n", "\r", "a\r", "a\r\r\nb", "\n\n"] {
        let expected: Vec<String> = text.lines().map(str::to_owned).collect();
        assert_eq!(lines_of(text), expected, "{text:?}");
    }
    assert_eq!(lines_of("a\r\n\nb\r"), vec!["a".to_owned(), "".to_owned(), "b\r".to_owned()]);
}
