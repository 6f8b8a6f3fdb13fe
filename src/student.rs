use vstd::prelude::*;

verus! {

/// A student record with a declared major.
#[derive(Debug, Clone, PartialEq, Eq)]
pub struct Student {
    pub major: String,
}

/// The major that `update_majors` hands to each student.
pub open spec fn default_major() -> Seq<char> {
    "Major Computer science"@
}

/// Sets the student's major.
pub fn assign_major(s: &mut Student, major: String)
    ensures
        final(s).major == major,
{
    s.major = major;
}

/// `after` is what `behavior` made of `before` given the major
/// "Major Computer science".
pub open spec fn updated_by<F: Fn(Student, String) -> Student>(
    behavior: F,
    before: Student,
    after: Student,
) -> bool {
    exists|m: String| m@ == default_major() && #[trigger] behavior.ensures((before, m), after)
}

/// Hands every student, in order, the major "Major Computer science"
/// through `behavior`, which returns the updated record.
pub fn update_majors<F: Fn(Student, String) -> Student>(collection: Vec<Student>, behavior: F) -> (r:
    Vec<Student>)
    requires
        forall|s: Student, m: String| #[trigger] behavior.requires((s, m)),
    ensures
        r.len() == collection.len(),
        forall|i: int| 0 <= i < r.len() ==> updated_by(behavior, collection@[i], #[trigger] r@[i]),
{
    let ghost original = collection@;
    let n = collection.len();
    let mut collection = collection;
    let mut reversed: Vec<Student> = Vec::new();
    while collection.len() > 0
        invariant
            collection.len() + reversed.len() == n,
            n == original.len(),
            forall|j: int| 0 <= j < collection.len() ==> #[trigger] collection@[j] == original[j],
            forall|j: int|
                0 <= j < reversed.len() ==> #[trigger] reversed@[j] == original[n - 1 - j],
        decreases collection.len(),
    {
        let s = collection.pop().unwrap();
        reversed.push(s);
    }
    let mut updated: Vec<Student> = Vec::new();
    while reversed.len() > 0
        invariant
            reversed.len() + updated.len() == n,
            n == original.len(),
            forall|s: Student, m: String| #[trigger] behavior.requires((s, m)),
            forall|j: int|
                0 <= j < reversed.len() ==> #[trigger] reversed@[j] == original[n - 1 - j],
            forall|j: int|
                0 <= j < updated.len() ==> updated_by(behavior, original[j], #[trigger] updated@[j]),
        decreases reversed.len(),
    {
        let before = reversed.pop().unwrap();
        let major = String::from_str("Major Computer science");
        let after = behavior(before, major);
        updated.push(after);
    }
    updated
}

} // verus!
