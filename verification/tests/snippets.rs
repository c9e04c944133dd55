use state_pattern::counter::{Counter, IteratorGen};
use state_pattern::my_box::MyBox;
use state_pattern::plus_one;
use state_pattern::rectangle::{Rectangle, _area};
use state_pattern::user::{build_user, create_tuple_structs, Color, Point};

#[test]
fn counter_yields_one_through_five() {
    let mut counter = Counter::new();
    let mut seen: Vec<u32> = Vec::new();
    loop {
        match counter.next() {
            Some(n) => seen.push(n),
            None => break,
        }
    }
    assert_eq!(seen, vec![1, 2, 3, 4, 5]);
    assert_eq!(counter.next(), None);
}

#[test]
fn iterator_gen_counts_like_the_counter() {
    let mut counter = Counter::new();
    assert_eq!(IteratorGen::<u32>::next(&mut counter), Some(1));
    assert_eq!(IteratorGen::<u32>::next(&mut counter), Some(2));
}

#[test]
fn plus_one_adds_one() {
    let five = Some(5);
    assert_eq!(plus_one(five), Some(6));
    assert_eq!(plus_one(None), None);
    assert_eq!(plus_one(Some(i32::MAX - 1)), Some(i32::MAX));
}

#[test]
fn rectangle_area() {
    let rect = Rectangle { height: 50, width: 30 };
    assert_eq!(rect.area(), 1500);
    assert_eq!(_area(&rect), 1500);
}

#[test]
fn rectangle_can_hold() {
    let rect = Rectangle { height: 50, width: 30 };
    let rect1 = Rectangle { height: 40, width: 20 };
    let rect2 = Rectangle { height: 60, width: 40 };
    assert!(rect.can_hold(&rect1));
    assert!(!rect.can_hold(&rect2));
    assert!(!rect.can_hold(&rect));
}

#[test]
fn rectangle_square() {
    let sq = Rectangle::square(20);
    assert_eq!(sq, Rectangle { width: 20, height: 20 });
    assert_eq!(sq.area(), 400);
}

#[test]
fn build_user_sets_defaults() {
    let user = build_user(String::from("new@t.com"), String::from("new user"));
    assert_eq!(user.email, "new@t.com");
    assert_eq!(user.username, "new user");
    assert!(user.active);
    assert_eq!(user.sign_in_count, 1);
}

#[test]
fn tuple_structs_start_at_origin() {
    let (color, point) = create_tuple_structs();
    assert_eq!(color, Color(0, 0, 0));
    assert_eq!(point, Point(0, 0, 0));
}

#[test]
fn my_box_wraps_a_value() {
    let boxed = MyBox::new(5);
    assert_eq!(*boxed.value(), 5);
    let named = MyBox::new(String::from("Rust"));
    assert_eq!(named.value(), "Rust");
}
