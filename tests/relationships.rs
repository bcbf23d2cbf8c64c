use rust_lessons::graph::{Campus, CampusError, Course as GraphCourse, Student as GraphStudent};
use rust_lessons::normalized::{Course, Enrollment, Platform, Student};

fn student(name: &str) -> Student {
    Student { name: name.to_string() }
}

fn course(name: &str) -> Course {
    Course { name: name.to_string() }
}

#[test]
fn enroll_once_then_query() {
    let kenry = student("Kenry");
    let intro = course("Intro to Rust");
    let mut p = Platform::new();
    p.enroll(&kenry, &intro);
    assert_eq!(p.courses_for(&kenry), vec!["Intro to Rust".to_string()]);
    assert_eq!(kenry.courses(p), vec!["Intro to Rust".to_string()]);
}

#[test]
fn courses_come_back_in_enrollment_order() {
    let kenry = student("Kenry");
    let kary = student("Kary");
    let rust = course("Rust");
    let math = course("Math");
    let art = course("Art");
    let mut p = Platform::new();
    p.enroll(&kenry, &math);
    p.enroll(&kary, &rust);
    p.enroll(&kenry, &art);
    p.enroll(&kenry, &rust);
    assert_eq!(p.len(), 4);
    assert_eq!(
        p.courses_for(&kenry),
        vec!["Math".to_string(), "Art".to_string(), "Rust".to_string()]
    );
    assert_eq!(p.courses_for(&kary), vec!["Rust".to_string()]);
    assert_eq!(p.students_for(&rust), vec!["Kary".to_string(), "Kenry".to_string()]);
    assert_eq!(p.students_for(&art), vec!["Kenry".to_string()]);
}

#[test]
fn duplicate_enrollment_is_kept() {
    let kenry = student("Kenry");
    let intro = course("Intro to Rust");
    let mut p = Platform::new();
    p.enroll(&kenry, &intro);
    p.enroll(&kenry, &intro);
    assert_eq!(
        p.courses_for(&kenry),
        vec!["Intro to Rust".to_string(), "Intro to Rust".to_string()]
    );
}

#[test]
fn unenrolled_student_has_no_courses() {
    let kenry = student("Kenry");
    let nobody = student("Nobody");
    let intro = course("Intro to Rust");
    let empty = Platform::new();
    assert!(empty.courses_for(&kenry).is_empty());
    let mut p = Platform::new();
    p.enroll(&kenry, &intro);
    assert!(p.courses_for(&nobody).is_empty());
    assert!(p.students_for(&course("Other")).is_empty());
}

#[test]
fn students_with_the_same_name_are_one_student() {
    let first = student("Sam");
    let second = student("Sam");
    let intro = course("Intro");
    let mut p = Platform::new();
    p.enroll(&first, &intro);
    assert_eq!(p.courses_for(&second), vec!["Intro".to_string()]);
}

#[test]
fn enrollment_links_its_pair() {
    let kenry = student("Kenry");
    let intro = course("Intro to Rust");
    let e = Enrollment::new(&kenry, &intro);
    assert_eq!(e.student.name, "Kenry");
    assert_eq!(e.course.name, "Intro to Rust");
}

#[test]
fn add_student_links_both_ways() {
    let mut campus = Campus::new();
    let kenry = campus.insert_student(GraphStudent::new("Kenry"));
    let kary = campus.insert_student(GraphStudent::new("Kary"));
    let rust = campus.insert_course(GraphCourse::new("Rust Course"));
    assert_eq!(GraphCourse::add_student(&mut campus, rust, kenry), Ok(()));
    assert_eq!(GraphCourse::add_student(&mut campus, rust, kary), Ok(()));
    assert_eq!(campus.student(kenry).unwrap().course_indices(), &vec![rust]);
    assert_eq!(campus.course(rust).unwrap().student_indices(), &vec![kenry, kary]);
    assert_eq!(campus.course_names_of(kary), Some(vec!["Rust Course".to_string()]));
    assert_eq!(
        campus.student_names_of(rust),
        Some(vec!["Kenry".to_string(), "Kary".to_string()])
    );
}

#[test]
fn add_student_rejects_unknown_indices() {
    let mut campus = Campus::new();
    let kenry = campus.insert_student(GraphStudent::new("Kenry"));
    let rust = campus.insert_course(GraphCourse::new("Rust"));
    assert_eq!(
        GraphCourse::add_student(&mut campus, rust + 1, kenry),
        Err(CampusError::UnknownCourse)
    );
    assert_eq!(
        GraphCourse::add_student(&mut campus, rust, kenry + 1),
        Err(CampusError::UnknownStudent)
    );
    assert!(campus.student(kenry).unwrap().course_indices().is_empty());
    assert!(campus.course(rust).unwrap().student_indices().is_empty());
    assert_eq!(campus.course_names_of(kenry + 1), None);
    assert_eq!(campus.student_names_of(rust + 1), None);
    assert!(campus.student(5).is_none());
    assert!(campus.course(5).is_none());
}

#[test]
fn graph_nodes_keep_their_names() {
    let mut campus = Campus::new();
    let s = campus.insert_student(GraphStudent::new("Kenry"));
    let c = campus.insert_course(GraphCourse::new("Rust"));
    assert_eq!(campus.student_count(), 1);
    assert_eq!(campus.course_count(), 1);
    assert_eq!(campus.student(s).unwrap().name(), "Kenry");
    assert_eq!(campus.course(c).unwrap().name(), "Rust");
    GraphCourse::add_student(&mut campus, c, s).unwrap();
    GraphCourse::add_student(&mut campus, c, s).unwrap();
    assert_eq!(
        campus.course_names_of(s),
        Some(vec!["Rust".to_string(), "Rust".to_string()])
    );
}
