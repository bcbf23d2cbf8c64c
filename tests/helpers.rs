use rust_lessons::basics::{greater_than, how_many, increment, is_even, product, sum_and_the_product};
use rust_lessons::complex::Complex;
use rust_lessons::conversion::Person as ConvertedPerson;
use rust_lessons::lifetimes::{Company, Person as BorrowedPerson};
use rust_lessons::shared::Person as SharedPerson;
use rust_lessons::squares::sum_even_squares;
use rust_lessons::summable::Summable;
use std::rc::Rc;

#[test]
fn how_many_names_each_count() {
    let expected = [
        "no", "one or two", "one or two", "a few", "some", "a few", "some", "a few", "some",
        "lots of", "lots of", "lots of", "a dozen",
    ];
    for (x, word) in expected.iter().enumerate() {
        assert_eq!(how_many(x as i32), *word);
    }
    assert_eq!(how_many(13), "a few");
    assert_eq!(how_many(14), "some");
    assert_eq!(how_many(-2), "some");
    assert_eq!(how_many(-3), "a few");
}

#[test]
fn sum_and_product_of_pairs() {
    assert_eq!(sum_and_the_product(3, 4), (7, 12));
    assert_eq!(sum_and_the_product(4, 7), (11, 28));
    assert_eq!(sum_and_the_product(-2, 5), (3, -10));
}

#[test]
fn increment_adds_one() {
    let mut z = 1;
    increment(&mut z);
    assert_eq!(z, 2);
    let mut n = -1;
    increment(&mut n);
    assert_eq!(n, 0);
}

#[test]
fn product_multiplies() {
    assert_eq!(product(3, 5), 15);
    assert_eq!(product(-3, 5), -15);
    assert_eq!(product(0, 9), 0);
}

#[test]
fn evenness() {
    assert!(is_even(0));
    assert!(is_even(484));
    assert!(!is_even(7));
}

#[test]
fn greater_than_is_strict() {
    let above = greater_than(500);
    assert!(above(501));
    assert!(!above(500));
    assert!(!above(0));
}

#[test]
fn even_squares_up_to_a_limit() {
    assert_eq!(sum_even_squares(500), 2024);
    assert_eq!(sum_even_squares(0), 0);
    assert_eq!(sum_even_squares(3), 0);
    assert_eq!(sum_even_squares(4), 4);
    assert_eq!(sum_even_squares(16), 20);
}

#[test]
fn complex_addition_and_negation() {
    let a = Complex::new(1, 2);
    let b = Complex::new(3, 4);
    assert_eq!(a + b, Complex::new(4, 6));
    let c = Complex::new(1.0, 2.0);
    let d = Complex::new(3.0, 4.0);
    let s = c + d;
    assert_eq!(s.re, 4.0);
    assert_eq!(s.im, 6.0);
    assert_eq!(-Complex::new(1, 2), Complex::new(-1, -2));
    assert!(Complex::new(1, 2) != Complex::new(3, 4));
    assert!(Complex::new(1, 2) == Complex::new(1, 2));
    assert!(Complex::new(1, 2) < Complex::new(3, 4));
}

#[test]
fn people_from_conversions() {
    assert_eq!(ConvertedPerson::new("Alex").name, "Alex");
    let name: String = "James".to_string();
    assert_eq!(ConvertedPerson::new(name.as_ref()).name, "James");
    assert_eq!(ConvertedPerson::new_into("Steph").name, "Steph");
    assert_eq!(ConvertedPerson::new_into("Steph".to_string()).name, "Steph");
    assert_eq!(ConvertedPerson::new_where("Harden").name, "Harden");
}

#[test]
fn borrowed_name_is_the_person_name() {
    let boss = BorrowedPerson { name: String::from("Elon Musk") };
    let tesla = Company { name: String::from("Tesla"), ceo: &boss };
    assert_eq!(tesla.ceo.get_ref_name(), "Elon Musk");
    assert_eq!(tesla.name, "Tesla");
}

#[test]
fn shared_name_counts_its_owners() {
    let name = Rc::new("Alex".to_string());
    assert_eq!(Rc::strong_count(&name), 1);
    {
        let person = SharedPerson::new(name.clone());
        assert_eq!(Rc::strong_count(&name), 2);
        assert_eq!(*person.name, "Alex");
    }
    assert_eq!(Rc::strong_count(&name), 1);
}

#[test]
fn vector_sum() {
    assert_eq!(vec![1, 2, 3].sum(), 6);
    assert_eq!(Vec::<i32>::new().sum(), 0);
    assert_eq!(vec![-5, 5, 7].sum(), 7);
}
