//! The greeting demo's rules: who is there at start, the one rename, and what
//! is said when the greeting timer fires.
use vstd::prelude::*;

verus! {

/// The names of the people present at start, in order.
pub fn starting_names() -> (r: Vec<String>)
    ensures
        r@.len() == 4,
        r@[0]@ == "Grant Wiswell"@,
        r@[1]@ == "Chloe Crichton"@,
        r@[2]@ == "Ty Lee Wiswell"@,
        r@[3]@ == "Mai Wiswell"@,
{
    let mut r: Vec<String> = Vec::new();
    r.push(String::from_str("Grant Wiswell"));
    r.push(String::from_str("Chloe Crichton"));
    r.push(String::from_str("Ty Lee Wiswell"));
    r.push(String::from_str("Mai Wiswell"));
    r
}

/// `k` is the first position of `target` in `names`.
pub open spec fn is_first_match(names: Seq<String>, target: Seq<char>, k: int) -> bool {
    &&& 0 <= k < names.len()
    &&& names[k]@ == target
    &&& forall|m: int| 0 <= m < k ==> (#[trigger] names[m])@ != target
}

/// Replaces the first name equal to `from` by `to`, and returns its position;
/// returns `None`, changing nothing, when no name equals `from`.
pub fn rename_first(names: &mut Vec<String>, from: &str, to: &str) -> (r: Option<usize>)
    ensures
        final(names)@.len() == old(names)@.len(),
        r is None <==> forall|m: int| 0 <= m < old(names)@.len() ==> (#[trigger] old(names)@[m])@ != from@,
        r is None ==> final(names)@ == old(names)@,
        r matches Some(k) ==> {
            &&& is_first_match(old(names)@, from@, k as int)
            &&& final(names)@[k as int]@ == to@
            &&& forall|m: int| 0 <= m < old(names)@.len() && m != k ==> #[trigger] final(names)@[m] == old(names)@[m]
        },
{
    let target = String::from_str(from);
    let mut i: usize = 0;
    while i < names.len()
        invariant
            names@ == old(names)@,
            target@ == from@,
            i <= names@.len(),
            forall|m: int| 0 <= m < i ==> (#[trigger] names@[m])@ != from@,
        decreases names@.len() - i,
    {
        if names[i] == target {
            names.set(i, String::from_str(to));
            return Some(i);
        }
        i += 1;
    }
    None
}

/// The one rename of the demo: Chloe Crichton becomes Chloe Wiswell (the
/// first person of that name only).
pub fn update_people(names: &mut Vec<String>) -> (r: Option<usize>)
    ensures
        final(names)@.len() == old(names)@.len(),
        r is None <==> forall|m: int| 0 <= m < old(names)@.len() ==> (#[trigger] old(names)@[m])@ != "Chloe Crichton"@,
        r is None ==> final(names)@ == old(names)@,
        r matches Some(k) ==> {
            &&& is_first_match(old(names)@, "Chloe Crichton"@, k as int)
            &&& final(names)@[k as int]@ == "Chloe Wiswell"@
            &&& forall|m: int| 0 <= m < old(names)@.len() && m != k ==> #[trigger] final(names)@[m] == old(names)@[m]
        },
{
    rename_first(names, "Chloe Crichton", "Chloe Wiswell")
}

/// What is said to one person.
pub open spec fn greeting_text(name: Seq<char>) -> Seq<char> {
    "hello "@ + name + "!"@
}

/// The greeting for one person: `hello <name>!`.
pub fn greeting(name: &str) -> (r: String)
    ensures
        r@ == greeting_text(name@),
{
    let mut r = String::from_str("hello ");
    r.append(name);
    r.append("!");
    r
}

/// The lines said when the greeting timer is checked: one greeting per
/// person, in order, when the timer has just finished; nothing otherwise.
pub fn greet_people(timer_finished: bool, names: &Vec<String>) -> (r: Vec<String>)
    ensures
        !timer_finished ==> r@.len() == 0,
        timer_finished ==> r@.len() == names@.len() && forall|k: int|
            0 <= k < names@.len() ==> (#[trigger] r@[k])@ == greeting_text(names@[k]@),
{
    let mut r: Vec<String> = Vec::new();
    if !timer_finished {
        return r;
    }
    let mut i: usize = 0;
    while i < names.len()
        invariant
            i <= names@.len(),
            r@.len() == i,
            forall|k: int| 0 <= k < i ==> (#[trigger] r@[k])@ == greeting_text(names@[k]@),
        decreases names@.len() - i,
    {
        r.push(greeting(names[i].as_str()));
        i += 1;
    }
    r
}

} // verus!
