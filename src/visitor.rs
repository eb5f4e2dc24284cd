use vstd::prelude::*;

verus! {

/// What the treehouse does with a visitor.
#[derive(Clone, Debug)]
pub enum VisitorAction {
    Accept,
    AcceptWithNote { note: String },
    Refuse,
    Probation,
}

/// A known visitor: a name kept in lower case, what to do with them, and their age.
#[derive(Clone, Debug)]
pub struct Visitor {
    pub name: String,
    pub action: VisitorAction,
    pub age: i8,
}

/// One line of a greeting; the caller prints it with the visitor's name or note.
#[derive(PartialEq, Eq, Structural, Clone, Copy, Debug)]
pub enum GreetingLine {
    Welcome,
    Note,
    NoAlcohol,
    Probation,
    Refuse,
}

/// What came of a name given at the door.
#[derive(PartialEq, Eq, Structural, Clone, Copy, Debug)]
pub enum Arrival {
    /// A visitor on the list, at this index.
    Known(usize),
    /// An empty name: nobody else is coming.
    Leave,
    /// A stranger, now appended to the list on probation.
    Registered,
}

/// Youngest age that is served alcohol.
pub const DRINKING_AGE: i8 = 21;

/// The characters of a string in lower case.
pub uninterp spec fn lower_of(s: Seq<char>) -> Seq<char>;

/// The characters of a string without leading and trailing whitespace.
pub uninterp spec fn trimmed_of(s: Seq<char>) -> Seq<char>;

/// Relies on `str::to_lowercase`: the result depends on the characters alone, and an
/// empty string stays empty.
#[verifier::external_body]
fn lowercase(s: &str) -> (r: String)
    ensures
        r@ == lower_of(s@),
        s@.len() == 0 ==> r@.len() == 0,
{
    s.to_lowercase()
}

/// Whether `part` is a contiguous run of the characters of `whole`.
pub open spec fn is_slice_of(part: Seq<char>, whole: Seq<char>) -> bool {
    exists|i: int, j: int| 0 <= i <= j <= whole.len() && part == whole.subrange(i, j)
}

/// Relies on `str::trim`: the result depends on the characters alone, and is a slice of
/// the input with leading and trailing whitespace removed.
#[verifier::external_body]
fn trim(s: &str) -> (r: &str)
    ensures
        r@ == trimmed_of(s@),
        is_slice_of(r@, s@),
{
    s.trim()
}

/// The lines greeting a visitor with this action and age.
pub open spec fn greeting_lines(action: VisitorAction, age: i8) -> Seq<GreetingLine> {
    match action {
        VisitorAction::Accept => seq![GreetingLine::Welcome],
        VisitorAction::AcceptWithNote { .. } => if age < DRINKING_AGE {
            seq![GreetingLine::Welcome, GreetingLine::Note, GreetingLine::NoAlcohol]
        } else {
            seq![GreetingLine::Welcome, GreetingLine::Note]
        },
        VisitorAction::Probation => seq![GreetingLine::Probation],
        VisitorAction::Refuse => seq![GreetingLine::Refuse],
    }
}

/// A name as typed at the door: trimmed, then in lower case.
pub fn normalize_name(raw: &str) -> (r: String)
    ensures
        r@ == lower_of(trimmed_of(raw@)),
{
    lowercase(trim(raw))
}

/// Index of the first visitor with this name, if any.
pub fn find_visitor(visitors: &Vec<Visitor>, name: &String) -> (r: Option<usize>)
    ensures
        match r {
            Some(i) => i < visitors@.len() && visitors@[i as int].name@ == name@ && forall|
                j: int,
            |
                0 <= j < i ==> #[trigger] visitors@[j].name@ != name@,
            None => forall|j: int|
                0 <= j < visitors@.len() ==> #[trigger] visitors@[j].name@ != name@,
        },
{
    let mut i: usize = 0;
    while i < visitors.len()
        invariant
            i <= visitors@.len(),
            forall|j: int| 0 <= j < i ==> #[trigger] visitors@[j].name@ != name@,
        decreases visitors@.len() - i,
    {
        if visitors[i].name == *name {
            return Some(i);
        }
        i = i + 1;
    }
    None
}

/// Handles a name given at the door: a known visitor is found, an empty name means
/// leaving, and a stranger joins the list on probation at age zero.
pub fn receive(visitors: &mut Vec<Visitor>, name: &String) -> (r: Arrival)
    ensures
        match r {
            Arrival::Known(i) => *final(visitors) == *old(visitors) && i < old(visitors)@.len()
                && old(visitors)@[i as int].name@ == name@ && forall|j: int|
                0 <= j < i ==> #[trigger] old(visitors)@[j].name@ != name@,
            Arrival::Leave => *final(visitors) == *old(visitors) && name@.len() == 0 && forall|
                j: int,
            |
                0 <= j < old(visitors)@.len() ==> #[trigger] old(visitors)@[j].name@ != name@,
            Arrival::Registered => {
                &&& name@.len() != 0
                &&& forall|j: int|
                    0 <= j < old(visitors)@.len() ==> #[trigger] old(visitors)@[j].name@
                        != name@
                &&& final(visitors)@.len() == old(visitors)@.len() + 1
                &&& final(visitors)@.subrange(0, old(visitors)@.len() as int) == old(visitors)@
                &&& final(visitors)@.last().name@ == lower_of(name@)
                &&& final(visitors)@.last().action == VisitorAction::Probation
                &&& final(visitors)@.last().age == 0
            },
        },
{
    match find_visitor(visitors, name) {
        Some(i) => Arrival::Known(i),
        None => {
            if name.as_str().is_empty() {
                Arrival::Leave
            } else {
                let v = Visitor::new(name.as_str(), VisitorAction::Probation, 0);
                visitors.push(v);
                proof {
                    assert(final(visitors)@.subrange(0, old(visitors)@.len() as int)
                        =~= old(visitors)@);
                }
                Arrival::Registered
            }
        },
    }
}

impl Visitor {
    /// A visitor whose name is stored in lower case.
    pub fn new(name: &str, action: VisitorAction, age: i8) -> (r: Self)
        ensures
            r.name@ == lower_of(name@),
            r.action == action,
            r.age == age,
    {
        Visitor { name: lowercase(name), action, age }
    }

    /// The lines that greet this visitor, in order.
    pub fn greeting(&self) -> (r: Vec<GreetingLine>)
        ensures
            r@ == greeting_lines(self.action, self.age),
    {
        match &self.action {
            VisitorAction::Accept => vec![GreetingLine::Welcome],
            VisitorAction::AcceptWithNote { .. } => {
                if self.age < DRINKING_AGE {
                    vec![GreetingLine::Welcome, GreetingLine::Note, GreetingLine::NoAlcohol]
                } else {
                    vec![GreetingLine::Welcome, GreetingLine::Note]
                }
            },
            VisitorAction::Probation => vec![GreetingLine::Probation],
            VisitorAction::Refuse => vec![GreetingLine::Refuse],
        }
    }
}

} // verus!
