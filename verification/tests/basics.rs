use snippets::arith::{add_two, internal_adder, plus_five, plus_one};
use snippets::coins::{value_in_cents, ChinaProvince, Coin};
use snippets::generics::{largest, MixPoint, Point};
use snippets::rect::Rectangle;
use snippets::user::build_user;
use snippets::words::first_word;

#[test]
fn internal() {
    assert_eq!(4, internal_adder(2, 2));
}

#[test]
fn it_add_two() {
    assert_eq!(4, add_two(2));
}

#[test]
fn plus_five_adds_five() {
    assert_eq!(11, plus_five(6));
}

#[test]
fn plus_one_increments_some() {
    assert_eq!(Some(6), plus_one(Some(5)));
}

#[test]
fn plus_one_keeps_none() {
    assert_eq!(None, plus_one(None));
}

#[test]
fn coin_values() {
    assert_eq!(1, value_in_cents(Coin::Penny));
    assert_eq!(5, value_in_cents(Coin::Nickel));
    assert_eq!(10, value_in_cents(Coin::Dime));
    assert_eq!(25, value_in_cents(Coin::Quarter(ChinaProvince::BeiJing)));
    assert_eq!(25, value_in_cents(Coin::Quarter(ChinaProvince::GuangZhou)));
}

#[test]
fn rectangle_area() {
    let rec = Rectangle {
        width: 16,
        height: 20,
    };
    assert_eq!(320, rec.area());
}

#[test]
fn rectangle_can_hold() {
    let rec = Rectangle {
        width: 16,
        height: 20,
    };
    let taller = Rectangle {
        width: 20,
        height: 16,
    };
    let smaller = Rectangle {
        width: 15,
        height: 19,
    };
    assert!(!rec.can_hold(&taller));
    assert!(rec.can_hold(&smaller));
}

#[test]
fn larger_can_hold_small() {
    let larger = Rectangle {
        width: 8,
        height: 7,
    };
    let small = Rectangle {
        width: 5,
        height: 1,
    };
    assert!(larger.can_hold(&small));
    assert!(!small.can_hold(&larger));
}

#[test]
fn square_has_equal_sides() {
    let s = Rectangle::square(16);
    assert_eq!(16, s.width);
    assert_eq!(16, s.height);
}

#[test]
fn built_user_is_active_and_fresh() {
    let u = build_user(
        String::from("user2@example.com"),
        String::from("user2username"),
    );
    assert!(u.active);
    assert_eq!("user2@example.com", u.email);
    assert_eq!("user2username", u.username);
    assert_eq!(1, u.sign_in_count);
}

#[test]
fn first_word_stops_at_space() {
    let s = String::from("hello world");
    assert_eq!("hello", first_word(&s));
}

#[test]
fn first_word_of_single_word() {
    let s = String::from("hello");
    assert_eq!("hello", first_word(&s));
}

#[test]
fn first_word_of_leading_space() {
    let s = String::from(" hello");
    assert_eq!("", first_word(&s));
}

#[test]
fn largest_number() {
    let number_list = vec![1, 2, 35, 9, 444];
    assert_eq!(444, *largest(&number_list));
}

#[test]
fn largest_char() {
    let char_list = vec!['y', 'm', 'a', 'q'];
    assert_eq!('y', *largest(&char_list));
}

#[test]
fn point_exposes_x() {
    let integer = Point { x: 10, y: 20 };
    assert_eq!(10, *integer.x());
}

#[test]
fn mixup_combines_coordinates() {
    let p1 = MixPoint { x: 5, y: 10.4 };
    let p2 = MixPoint { x: "Hello", y: 'c' };
    let p3 = p1.mixup(p2);
    assert_eq!(5, p3.x);
    assert_eq!('c', p3.y);
}
