//! Many-to-many relationship between students and courses kept in a join
//! table: students and courses never refer to each other, every link is an
//! `Enrollment` record owned by a `Platform`.
use vstd::prelude::*;

verus! {

/// The course names enrolled for `student`, in the order the pairs were recorded.
/// A pair is `(student name, course name)`.
pub open spec fn courses_of(pairs: Seq<(Seq<char>, Seq<char>)>, student: Seq<char>) -> Seq<Seq<char>>
    decreases pairs.len(),
{
    if pairs.len() == 0 {
        seq![]
    } else {
        let earlier = courses_of(pairs.drop_last(), student);
        if pairs.last().0 == student {
            earlier.push(pairs.last().1)
        } else {
            earlier
        }
    }
}

/// The student names enrolled in `course`, in the order the pairs were recorded.
pub open spec fn students_of(pairs: Seq<(Seq<char>, Seq<char>)>, course: Seq<char>) -> Seq<Seq<char>>
    decreases pairs.len(),
{
    if pairs.len() == 0 {
        seq![]
    } else {
        let earlier = students_of(pairs.drop_last(), course);
        if pairs.last().1 == course {
            earlier.push(pairs.last().0)
        } else {
            earlier
        }
    }
}

/// The text of each string in `v`, in order.
pub open spec fn names_of(v: Seq<String>) -> Seq<Seq<char>> {
    v.map_values(|s: String| s@)
}

/// Enrolling `student` in `course` adds `course` at the end of that
/// student's course list.
pub proof fn lemma_enroll_appends_course(pairs: Seq<(Seq<char>, Seq<char>)>, student: Seq<char>, course: Seq<char>)
    ensures
        courses_of(pairs.push((student, course)), student) == courses_of(pairs, student).push(course),
{
    assert(pairs.push((student, course)).drop_last() =~= pairs);
}

/// Enrolling some other student leaves a student's course list unchanged.
pub proof fn lemma_enroll_keeps_other_students(
    pairs: Seq<(Seq<char>, Seq<char>)>,
    other: Seq<char>,
    course: Seq<char>,
    student: Seq<char>,
)
    requires
        other != student,
    ensures
        courses_of(pairs.push((other, course)), student) == courses_of(pairs, student),
{
    assert(pairs.push((other, course)).drop_last() =~= pairs);
}

/// After any sequence of enrollments, a student's course list is exactly the
/// courses of the records naming that student, kept in enrollment order.
pub proof fn lemma_courses_are_the_student_records(pairs: Seq<(Seq<char>, Seq<char>)>, student: Seq<char>)
    ensures
        courses_of(pairs, student) == pairs.filter(|p: (Seq<char>, Seq<char>)| p.0 == student).map_values(
            |p: (Seq<char>, Seq<char>)| p.1,
        ),
    decreases pairs.len(),
{
    let pred = |p: (Seq<char>, Seq<char>)| p.0 == student;
    let second = |p: (Seq<char>, Seq<char>)| p.1;
    reveal(Seq::filter);
    if pairs.len() > 0 {
        lemma_courses_are_the_student_records(pairs.drop_last(), student);
        let sub = pairs.drop_last().filter(pred);
        if pred(pairs.last()) {
            assert(sub.push(pairs.last()).map_values(second) =~= sub.map_values(second).push(pairs.last().1));
        }
    } else {
        assert(pairs.filter(pred) =~= Seq::<(Seq<char>, Seq<char>)>::empty());
        assert(pairs.filter(pred).map_values(second) =~= Seq::<Seq<char>>::empty());
    }
}

/// Enrolling the same pair twice lists the course twice: duplicates are kept.
pub proof fn lemma_duplicate_enrollment_kept(pairs: Seq<(Seq<char>, Seq<char>)>, student: Seq<char>, course: Seq<char>)
    ensures
        courses_of(pairs.push((student, course)).push((student, course)), student) == courses_of(
            pairs,
            student,
        ).push(course).push(course),
{
    lemma_enroll_appends_course(pairs, student, course);
    lemma_enroll_appends_course(pairs.push((student, course)), student, course);
}

/// A student named in no record has an empty course list.
pub proof fn lemma_unenrolled_student_has_no_courses(pairs: Seq<(Seq<char>, Seq<char>)>, student: Seq<char>)
    requires
        forall|i: int| 0 <= i < pairs.len() ==> #[trigger] pairs[i].0 != student,
    ensures
        courses_of(pairs, student) == Seq::<Seq<char>>::empty(),
    decreases pairs.len(),
{
    if pairs.len() > 0 {
        assert(pairs.last() == pairs[pairs.len() - 1]);
        lemma_unenrolled_student_has_no_courses(pairs.drop_last(), student);
    }
}

/// A student, identified by name.
pub struct Student {
    pub name: String,
}

/// A course, identified by name.
pub struct Course {
    pub name: String,
}

/// One link between a student and a course.
pub struct Enrollment<'a> {
    pub student: &'a Student,
    pub course: &'a Course,
}

impl<'a> View for Enrollment<'a> {
    type V = (Seq<char>, Seq<char>);

    open spec fn view(&self) -> (Seq<char>, Seq<char>) {
        (self.student.name@, self.course.name@)
    }
}

impl<'a> Enrollment<'a> {
    /// A record linking `student` to `course`.
    pub fn new(student: &'a Student, course: &'a Course) -> (r: Enrollment<'a>)
        ensures
            r.student == student,
            r.course == course,
            r@ == (student.name@, course.name@),
    {
        Enrollment { student, course }
    }
}

/// Owns every enrollment record and answers queries by scanning them.
pub struct Platform<'a> {
    enrollments: Vec<Enrollment<'a>>,
}

impl<'a> View for Platform<'a> {
    type V = Seq<(Seq<char>, Seq<char>)>;

    /// The recorded `(student name, course name)` pairs, oldest first.
    closed spec fn view(&self) -> Seq<(Seq<char>, Seq<char>)> {
        self.enrollments@.map_values(|e: Enrollment<'a>| e@)
    }
}

impl<'a> Platform<'a> {
    /// A platform with no enrollments.
    pub fn new() -> (r: Platform<'a>)
        ensures
            r@ == Seq::<(Seq<char>, Seq<char>)>::empty(),
    {
        Platform { enrollments: Vec::new() }
    }

    /// Records one more link between `student` and `course`; an existing
    /// identical link is kept, so the pair may then appear twice.
    pub fn enroll(&mut self, student: &'a Student, course: &'a Course)
        ensures
            final(self)@ == old(self)@.push((student.name@, course.name@)),
    {
        self.enrollments.push(Enrollment::new(student, course));
        assert(final(self)@ =~= old(self)@.push((student.name@, course.name@)));
    }

    /// Number of enrollment records.
    pub fn len(&self) -> (r: usize)
        ensures
            r == self@.len(),
    {
        self.enrollments.len()
    }

    /// Names of the courses linked to a student with the same name as
    /// `student`, one entry per record, in the order they were enrolled.
    pub fn courses_for(&self, student: &Student) -> (r: Vec<String>)
        ensures
            names_of(r@) == courses_of(self@, student.name@),
    {
        let mut r: Vec<String> = Vec::new();
        let mut i: usize = 0;
        while i < self.enrollments.len()
            invariant
                i <= self.enrollments@.len(),
                names_of(r@) == courses_of(self@.take(i as int), student.name@),
            decreases self.enrollments@.len() - i,
        {
            let e = &self.enrollments[i];
            proof {
                assert(self@.take(i as int + 1).drop_last() =~= self@.take(i as int));
            }
            if e.student.name == student.name {
                r.push(e.course.name.clone());
                assert(names_of(r@) =~= courses_of(self@.take(i as int), student.name@).push(e.course.name@));
            }
            i = i + 1;
        }
        assert(self@.take(i as int) =~= self@);
        r
    }

    /// Names of the students linked to a course with the same name as
    /// `course`, one entry per record, in the order they were enrolled.
    pub fn students_for(&self, course: &Course) -> (r: Vec<String>)
        ensures
            names_of(r@) == students_of(self@, course.name@),
    {
        let mut r: Vec<String> = Vec::new();
        let mut i: usize = 0;
        while i < self.enrollments.len()
            invariant
                i <= self.enrollments@.len(),
                names_of(r@) == students_of(self@.take(i as int), course.name@),
            decreases self.enrollments@.len() - i,
        {
            let e = &self.enrollments[i];
            proof {
                assert(self@.take(i as int + 1).drop_last() =~= self@.take(i as int));
            }
            if e.course.name == course.name {
                r.push(e.student.name.clone());
                assert(names_of(r@) =~= students_of(self@.take(i as int), course.name@).push(e.student.name@));
            }
            i = i + 1;
        }
        assert(self@.take(i as int) =~= self@);
        r
    }
}

impl Student {
    /// Names of the courses this student is enrolled in on `platform`, in
    /// enrollment order; matching is by name.
    pub fn courses(&self, platform: Platform) -> (r: Vec<String>)
        ensures
            names_of(r@) == courses_of(platform@, self.name@),
    {
        platform.courses_for(self)
    }
}

} // verus!
