//! Many-to-many relationship between students and courses kept as a graph:
//! each side lists the other. All nodes live in one `Campus` arena and refer
//! to each other by index, so linking never needs shared ownership.
use vstd::prelude::*;

verus! {

/// A node as seen in contracts: its name and the indices it links to.
pub struct Node {
    pub name: Seq<char>,
    pub links: Seq<usize>,
}

/// A whole campus as seen in contracts: students and courses by index.
pub struct CampusView {
    pub students: Seq<Node>,
    pub courses: Seq<Node>,
}

/// Every link is recorded on both sides and points at an existing node.
pub open spec fn symmetric(v: CampusView) -> bool {
    &&& forall|s: int, k: int|
        0 <= s < v.students.len() && 0 <= k < v.students[s].links.len() ==> {
            let c = #[trigger] v.students[s].links[k];
            &&& c < v.courses.len()
            &&& v.courses[c as int].links.contains(s as usize)
        }
    &&& forall|c: int, k: int|
        0 <= c < v.courses.len() && 0 <= k < v.courses[c].links.len() ==> {
            let s = #[trigger] v.courses[c].links[k];
            &&& s < v.students.len()
            &&& v.students[s as int].links.contains(c as usize)
        }
}

/// Why a link could not be made.
#[derive(Debug, Clone, Copy, PartialEq, Eq, Structural)]
pub enum CampusError {
    /// No course has the given index.
    UnknownCourse,
    /// No student has the given index.
    UnknownStudent,
}

/// A student and the indices of the courses they attend.
pub struct Student {
    name: String,
    courses: Vec<usize>,
}

/// A course and the indices of the students who attend it.
pub struct Course {
    name: String,
    students: Vec<usize>,
}

impl View for Student {
    type V = Node;

    closed spec fn view(&self) -> Node {
        Node { name: self.name@, links: self.courses@ }
    }
}

impl View for Course {
    type V = Node;

    closed spec fn view(&self) -> Node {
        Node { name: self.name@, links: self.students@ }
    }
}

impl Student {
    /// A student with the given name, attending no course yet.
    pub fn new(name: &str) -> (r: Student)
        ensures
            r@ == (Node { name: name@, links: seq![] }),
    {
        Student { name: name.to_string(), courses: Vec::new() }
    }

    /// The student's name.
    pub fn name(&self) -> (r: &String)
        ensures
            r@ == self@.name,
    {
        &self.name
    }

    /// Indices of the courses this student attends, in the order joined.
    pub fn course_indices(&self) -> (r: &Vec<usize>)
        ensures
            r@ == self@.links,
    {
        &self.courses
    }
}

impl Course {
    /// A course with the given name and no students yet.
    pub fn new(name: &str) -> (r: Course)
        ensures
            r@ == (Node { name: name@, links: seq![] }),
    {
        Course { name: name.to_string(), students: Vec::new() }
    }

    /// The course's name.
    pub fn name(&self) -> (r: &String)
        ensures
            r@ == self@.name,
    {
        &self.name
    }

    /// Indices of the students attending this course, in the order added.
    pub fn student_indices(&self) -> (r: &Vec<usize>)
        ensures
            r@ == self@.links,
    {
        &self.students
    }

    /// Links `student` and `course` in both directions in one step: the course
    /// is appended to the student's list and the student to the course's list.
    /// An unknown index leaves the campus unchanged.
    pub fn add_student(campus: &mut Campus, course: usize, student: usize) -> (r: Result<(), CampusError>)
        requires
            old(campus).wf(),
        ensures
            final(campus).wf(),
            course >= old(campus)@.courses.len() ==> r == Err::<(), CampusError>(CampusError::UnknownCourse),
            course < old(campus)@.courses.len() && student >= old(campus)@.students.len() ==> r == Err::<
                (),
                CampusError,
            >(CampusError::UnknownStudent),
            r is Err ==> final(campus)@ == old(campus)@,
            r is Ok <==> course < old(campus)@.courses.len() && student < old(campus)@.students.len(),
            r is Ok ==> {
                let before = old(campus)@;
                let after = final(campus)@;
                &&& after.students == before.students.update(
                    student as int,
                    Node { links: before.students[student as int].links.push(course), ..before.students[student as int] },
                )
                &&& after.courses == before.courses.update(
                    course as int,
                    Node { links: before.courses[course as int].links.push(student), ..before.courses[course as int] },
                )
                &&& after.students[student as int].links.contains(course)
                &&& after.courses[course as int].links.contains(student)
            },
    {
        if course >= campus.courses.len() {
            return Err(CampusError::UnknownCourse);
        }
        if student >= campus.students.len() {
            return Err(CampusError::UnknownStudent);
        }
        let ghost before = campus@;
        let mut s = campus.students.remove(student);
        s.courses.push(course);
        campus.students.insert(student, s);
        let mut c = campus.courses.remove(course);
        c.students.push(student);
        campus.courses.insert(course, c);
        let ghost after = campus@;
        proof {
            assert(after.students =~= before.students.update(
                student as int,
                Node { links: before.students[student as int].links.push(course), ..before.students[student as int] },
            ));
            assert(after.courses =~= before.courses.update(
                course as int,
                Node { links: before.courses[course as int].links.push(student), ..before.courses[course as int] },
            ));
            assert(after.students[student as int].links.last() == course);
            assert(after.courses[course as int].links.last() == student);
            lemma_link_keeps_symmetry(before, after, student, course);
        }
        Ok(())
    }
}

/// Adding one link on both sides keeps the relationship symmetric.
proof fn lemma_link_keeps_symmetry(before: CampusView, after: CampusView, student: usize, course: usize)
    requires
        symmetric(before),
        student < before.students.len(),
        course < before.courses.len(),
        after.students == before.students.update(
            student as int,
            Node { links: before.students[student as int].links.push(course), ..before.students[student as int] },
        ),
        after.courses == before.courses.update(
            course as int,
            Node { links: before.courses[course as int].links.push(student), ..before.courses[course as int] },
        ),
    ensures
        symmetric(after),
{
    let sl = before.students[student as int].links;
    let cl = before.courses[course as int].links;
    assert(after.students[student as int].links == sl.push(course));
    assert(after.courses[course as int].links == cl.push(student));
    assert forall|s: int, k: int|
        0 <= s < after.students.len() && 0 <= k < after.students[s].links.len() implies {
            let c = #[trigger] after.students[s].links[k];
            &&& c < after.courses.len()
            &&& after.courses[c as int].links.contains(s as usize)
        } by {
        let c = after.students[s].links[k];
        if s == student && k == sl.len() {
            assert(after.courses[course as int].links[cl.len() as int] == student);
        } else {
            assert(c == before.students[s].links[k]);
            let j = choose|j: int| 0 <= j < before.courses[c as int].links.len()
                && before.courses[c as int].links[j] == s as usize;
            assert(after.courses[c as int].links[j] == s as usize);
        }
    }
    assert forall|c: int, k: int|
        0 <= c < after.courses.len() && 0 <= k < after.courses[c].links.len() implies {
            let s = #[trigger] after.courses[c].links[k];
            &&& s < after.students.len()
            &&& after.students[s as int].links.contains(c as usize)
        } by {
        let s = after.courses[c].links[k];
        if c == course && k == cl.len() {
            assert(after.students[student as int].links[sl.len() as int] == course);
        } else {
            assert(s == before.courses[c].links[k]);
            let j = choose|j: int| 0 <= j < before.students[s as int].links.len()
                && before.students[s as int].links[j] == c as usize;
            assert(after.students[s as int].links[j] == c as usize);
        }
    }
}

/// Owns every student and course; a node's index never changes.
pub struct Campus {
    students: Vec<Student>,
    courses: Vec<Course>,
}

impl View for Campus {
    type V = CampusView;

    closed spec fn view(&self) -> CampusView {
        CampusView {
            students: self.students@.map_values(|s: Student| s@),
            courses: self.courses@.map_values(|c: Course| c@),
        }
    }
}

impl Campus {
    /// Links are recorded on both sides and point at existing nodes.
    pub open spec fn wf(&self) -> bool {
        symmetric(self@)
    }

    /// A campus with no students and no courses.
    pub fn new() -> (r: Campus)
        ensures
            r.wf(),
            r@.students.len() == 0,
            r@.courses.len() == 0,
    {
        let r = Campus { students: Vec::new(), courses: Vec::new() };
        assert(r@.students.len() == 0);
        r
    }
    /// Number of students.
    pub fn student_count(&self) -> (r: usize)
        ensures
            r == self@.students.len(),
    {
        self.students.len()
    }

    /// Number of courses.
    pub fn course_count(&self) -> (r: usize)
        ensures
            r == self@.courses.len(),
    {
        self.courses.len()
    }

    /// Adds `student` under the next free index, which is returned. The new
    /// node starts with no courses, whatever links `student` carried.
    pub fn insert_student(&mut self, student: Student) -> (r: usize)
        requires
            old(self).wf(),
        ensures
            final(self).wf(),
            r == old(self)@.students.len(),
            final(self)@.students == old(self)@.students.push(Node { name: student@.name, links: seq![] }),
            final(self)@.courses == old(self)@.courses,
    {
        let r = self.students.len();
        let ghost before = self@;
        self.students.push(Student { name: student.name, courses: Vec::new() });
        proof {
            assert(self@.students =~= before.students.push(Node { name: student@.name, links: seq![] }));
            assert(self@.courses =~= before.courses);
            assert forall|c: int, k: int|
                0 <= c < self@.courses.len() && 0 <= k < self@.courses[c].links.len() implies {
                    let s = #[trigger] self@.courses[c].links[k];
                    &&& s < self@.students.len()
                    &&& self@.students[s as int].links.contains(c as usize)
                } by {
                let s = self@.courses[c].links[k];
                assert(self@.students[s as int] == before.students[s as int]);
            }
        }
        r
    }

    /// Adds `course` under the next free index, which is returned. The new
    /// node starts with no students, whatever links `course` carried.
    pub fn insert_course(&mut self, course: Course) -> (r: usize)
        requires
            old(self).wf(),
        ensures
            final(self).wf(),
            r == old(self)@.courses.len(),
            final(self)@.courses == old(self)@.courses.push(Node { name: course@.name, links: seq![] }),
            final(self)@.students == old(self)@.students,
    {
        let r = self.courses.len();
        let ghost before = self@;
        self.courses.push(Course { name: course.name, students: Vec::new() });
        proof {
            assert(self@.courses =~= before.courses.push(Node { name: course@.name, links: seq![] }));
            assert(self@.students =~= before.students);
            assert forall|s: int, k: int|
                0 <= s < self@.students.len() && 0 <= k < self@.students[s].links.len() implies {
                    let c = #[trigger] self@.students[s].links[k];
                    &&& c < self@.courses.len()
                    &&& self@.courses[c as int].links.contains(s as usize)
                } by {
                let c = self@.students[s].links[k];
                assert(self@.courses[c as int] == before.courses[c as int]);
            }
        }
        r
    }

    /// The student at `index`, if there is one.
    pub fn student(&self, index: usize) -> (r: Option<&Student>)
        ensures
            index < self@.students.len() <==> r is Some,
            r is Some ==> r->0@ == self@.students[index as int],
    {
        if index < self.students.len() {
            Some(&self.students[index])
        } else {
            None
        }
    }

    /// The course at `index`, if there is one.
    pub fn course(&self, index: usize) -> (r: Option<&Course>)
        ensures
            index < self@.courses.len() <==> r is Some,
            r is Some ==> r->0@ == self@.courses[index as int],
    {
        if index < self.courses.len() {
            Some(&self.courses[index])
        } else {
            None
        }
    }

    /// Names of the courses the student at `student` attends, in the order
    /// joined; `None` when there is no such student.
    pub fn course_names_of(&self, student: usize) -> (r: Option<Vec<String>>)
        requires
            self.wf(),
        ensures
            student < self@.students.len() <==> r is Some,
            r is Some ==> r->0@.map_values(|n: String| n@) == self@.students[student as int].links.map_values(
                |c: usize| self@.courses[c as int].name,
            ),
    {
        if student >= self.students.len() {
            return None;
        }
        let links = &self.students[student].courses;
        let mut names: Vec<String> = Vec::new();
        let mut k: usize = 0;
        while k < links.len()
            invariant
                self.wf(),
                student < self@.students.len(),
                links@ == self@.students[student as int].links,
                k <= links@.len(),
                names@.map_values(|n: String| n@) == links@.take(k as int).map_values(
                    |c: usize| self@.courses[c as int].name,
                ),
            decreases links@.len() - k,
        {
            let c = links[k];
            assert(self@.students[student as int].links[k as int] == c);
            assert(c < self@.courses.len());
            assert(self@.courses[c as int].name == self.courses@[c as int].name@);
            let ghost prev = names@;
            names.push(self.courses[c].name.clone());
            assert(names@.map_values(|n: String| n@) =~= prev.map_values(|n: String| n@).push(
                self@.courses[c as int].name,
            ));
            assert(links@.take(k as int + 1) =~= links@.take(k as int).push(c));
            assert(names@.map_values(|n: String| n@) =~= links@.take(k as int + 1).map_values(
                |c: usize| self@.courses[c as int].name,
            ));
            k = k + 1;
        }
        assert(links@.take(k as int) =~= links@);
        Some(names)
    }

    /// Names of the students attending the course at `course`, in the order
    /// added; `None` when there is no such course.
    pub fn student_names_of(&self, course: usize) -> (r: Option<Vec<String>>)
        requires
            self.wf(),
        ensures
            course < self@.courses.len() <==> r is Some,
            r is Some ==> r->0@.map_values(|n: String| n@) == self@.courses[course as int].links.map_values(
                |s: usize| self@.students[s as int].name,
            ),
    {
        if course >= self.courses.len() {
            return None;
        }
        let links = &self.courses[course].students;
        let mut names: Vec<String> = Vec::new();
        let mut k: usize = 0;
        while k < links.len()
            invariant
                self.wf(),
                course < self@.courses.len(),
                links@ == self@.courses[course as int].links,
                k <= links@.len(),
                names@.map_values(|n: String| n@) == links@.take(k as int).map_values(
                    |s: usize| self@.students[s as int].name,
                ),
            decreases links@.len() - k,
        {
            let s = links[k];
            assert(self@.courses[course as int].links[k as int] == s);
            assert(s < self@.students.len());
            assert(self@.students[s as int].name == self.students@[s as int].name@);
            let ghost prev = names@;
            names.push(self.students[s].name.clone());
            assert(names@.map_values(|n: String| n@) =~= prev.map_values(|n: String| n@).push(
                self@.students[s as int].name,
            ));
            assert(links@.take(k as int + 1) =~= links@.take(k as int).push(s));
            assert(names@.map_values(|n: String| n@) =~= links@.take(k as int + 1).map_values(
                |s: usize| self@.students[s as int].name,
            ));
            k = k + 1;
        }
        assert(links@.take(k as int) =~= links@);
        Some(names)
    }
}

} // verus!
