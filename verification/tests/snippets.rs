use coop_async::order::largest;
use coop_async::rect::Rectangle;
use coop_async::text::add_world;
use coop_async::text::first_word;
use coop_async::text::longest;

#[test]
fn longest_picks_the_longer_slice() {
    let s1 = String::from("abcd");
    let s2 = "xyz";
    assert_eq!(longest(s1.as_str(), s2), "abcd");
    assert_eq!(longest("ab", "wxyz"), "wxyz");
}

#[test]
fn longest_prefers_second_on_tie() {
    assert_eq!(longest("abc", "xyz"), "xyz");
}

#[test]
fn first_word_stops_at_the_first_space() {
    let s = String::from("hello world");
    assert_eq!(first_word(&s), "hello");
    assert_eq!(first_word("one two three"), "one");
}

#[test]
fn first_word_of_spaceless_string_is_the_whole_string() {
    assert_eq!(first_word("hello"), "hello");
    assert_eq!(first_word(""), "");
}

#[test]
fn first_word_of_leading_space_is_empty() {
    assert_eq!(first_word(" padded"), "");
}

#[test]
fn add_world_appends_the_suffix() {
    let mut s = String::from("Hello");
    add_world(&mut s);
    assert_eq!(s, "Hello World!");
}

#[test]
fn largest_finds_the_maximum() {
    let numbers = vec![30, 50, 25, 100, 65];
    assert_eq!(*largest(&numbers), 100);
    let single = vec![-7];
    assert_eq!(*largest(&single), -7);
    let with_duplicates = vec![2, 9, 9, 1];
    assert_eq!(*largest(&with_duplicates), 9);
}

#[test]
fn rectangle_area_and_width() {
    let rec = Rectangle { width: 30, height: 50 };
    assert_eq!(rec.area(), 1500);
    assert!(rec.width());
    let flat = Rectangle { width: 0, height: 10 };
    assert!(!flat.width());
}

#[test]
fn rectangle_containment() {
    let rec1 = Rectangle { width: 30, height: 50 };
    let rec2 = Rectangle { width: 10, height: 40 };
    let rec3 = Rectangle { width: 60, height: 45 };
    assert!(rec1.can_hold(&rec2));
    assert!(!rec1.can_hold(&rec3));
    assert!(!rec2.can_hold(&rec1));
}
