//! Manifests are trees, so a location in one can be described as a path. Paths
//! are used for progress output, for schema and validation errors of
//! descriptions, and for debugging.

use vstd::prelude::*;
use vstd::string::*;

verus! {

/// One step of a path: the name of a member, or an index into a list.
pub enum Part {
    Name(String),
    Index(usize),
}

/// The mathematical value of a [`Part`].
pub enum PartView {
    Name(Seq<char>),
    Index(nat),
}

impl View for Part {
    type V = PartView;

    open spec fn view(&self) -> PartView {
        match self {
            Part::Name(name) => PartView::Name(name@),
            Part::Index(index) => PartView::Index(*index as nat),
        }
    }
}

/// A location in a manifest: the steps that lead to it from the root.
pub struct Path(pub Vec<Part>);

impl View for Path {
    type V = Seq<PartView>;

    open spec fn view(&self) -> Seq<PartView> {
        Seq::new(self.0@.len(), |i: int| self.0@[i]@)
    }
}

/// The character of a decimal digit.
pub open spec fn digit_char(d: nat) -> char {
    if d == 0 {
        '0'
    } else if d == 1 {
        '1'
    } else if d == 2 {
        '2'
    } else if d == 3 {
        '3'
    } else if d == 4 {
        '4'
    } else if d == 5 {
        '5'
    } else if d == 6 {
        '6'
    } else if d == 7 {
        '7'
    } else if d == 8 {
        '8'
    } else {
        '9'
    }
}

/// A natural number written in decimal, without leading zeros.
pub open spec fn decimal_text(n: nat) -> Seq<char>
    decreases n,
{
    if n < 10 {
        seq![digit_char(n)]
    } else {
        decimal_text(n / 10).push(digit_char(n % 10))
    }
}

/// How a name is written in a path: after a dot, and between single quotes
/// when it holds a space.
pub open spec fn name_text(name: Seq<char>) -> Seq<char> {
    if name.contains(' ') {
        seq!['.', '\''] + name + seq!['\'']
    } else {
        seq!['.'] + name
    }
}

/// How an index is written in a path: in decimal between square brackets.
pub open spec fn index_text(index: nat) -> Seq<char> {
    seq!['['] + decimal_text(index) + seq![']']
}

/// How one step of a path is written.
pub open spec fn part_text(part: PartView) -> Seq<char> {
    match part {
        PartView::Name(name) => name_text(name),
        PartView::Index(index) => index_text(index),
    }
}

/// The steps of a path written one after the other.
pub open spec fn parts_text(parts: Seq<PartView>) -> Seq<char>
    decreases parts.len(),
{
    if parts.len() == 0 {
        Seq::empty()
    } else {
        parts_text(parts.drop_last()) + part_text(parts.last())
    }
}

/// How a path is written: a single dot for the root, else its steps one after
/// the other.
pub open spec fn path_text(parts: Seq<PartView>) -> Seq<char> {
    if parts.len() == 0 {
        seq!['.']
    } else {
        parts_text(parts)
    }
}

fn digit_text(d: usize) -> (s: &'static str)
    requires
        d < 10,
    ensures
        s@ == seq![digit_char(d as nat)],
{
    proof {
        reveal_strlit("0");
        reveal_strlit("1");
        reveal_strlit("2");
        reveal_strlit("3");
        reveal_strlit("4");
        reveal_strlit("5");
        reveal_strlit("6");
        reveal_strlit("7");
        reveal_strlit("8");
        reveal_strlit("9");
    }
    let s = if d == 0 {
        "0"
    } else if d == 1 {
        "1"
    } else if d == 2 {
        "2"
    } else if d == 3 {
        "3"
    } else if d == 4 {
        "4"
    } else if d == 5 {
        "5"
    } else if d == 6 {
        "6"
    } else if d == 7 {
        "7"
    } else if d == 8 {
        "8"
    } else {
        "9"
    };
    assert(s@ =~= seq![digit_char(d as nat)]);
    s
}

/// Writes a number in decimal.
pub fn decimal_string(n: usize) -> (s: String)
    ensures
        s@ == decimal_text(n as nat),
    decreases n,
{
    if n < 10 {
        String::from_str(digit_text(n))
    } else {
        let mut s = decimal_string(n / 10);
        s.append(digit_text(n % 10));
        assert(s@ =~= decimal_text((n / 10) as nat).push(digit_char((n % 10) as nat)));
        s
    }
}

/// Whether a text holds a space.
pub fn has_space(text: &str) -> (found: bool)
    ensures
        found == text@.contains(' '),
{
    let n = text.unicode_len();
    let mut i: usize = 0;
    while i < n
        invariant
            n == text@.len(),
            i <= n,
            forall|j: int| 0 <= j < i ==> text@[j] != ' ',
        decreases n - i,
    {
        if text.get_char(i) == ' ' {
            return true;
        }
        i = i + 1;
    }
    false
}

/// Appends a name to a path under construction.
pub fn append_name(out: &mut String, name: &str)
    ensures
        final(out)@ == old(out)@ + name_text(name@),
{
    proof {
        reveal_strlit(".");
        reveal_strlit(".'");
        reveal_strlit("'");
    }
    if has_space(name) {
        out.append(".'");
        out.append(name);
        out.append("'");
        assert(out@ =~= old(out)@ + name_text(name@));
    } else {
        out.append(".");
        out.append(name);
        assert(out@ =~= old(out)@ + name_text(name@));
    }
}

/// Appends an index to a path under construction.
pub fn append_index(out: &mut String, index: usize)
    ensures
        final(out)@ == old(out)@ + index_text(index as nat),
{
    proof {
        reveal_strlit("[");
        reveal_strlit("]");
    }
    let digits = decimal_string(index);
    out.append("[");
    out.append(digits.as_str());
    out.append("]");
    assert(out@ =~= old(out)@ + index_text(index as nat));
}

impl Path {
    /// A path of the given steps.
    pub fn new(path: Vec<Part>) -> (r: Self)
        ensures
            r.0 == path,
    {
        Self(path)
    }

    /// Writes the path out: `.` for the root, names after a dot (quoted when
    /// they hold a space), indices in square brackets.
    pub fn to_string(&self) -> (text: String)
        ensures
            text@ == path_text(self@),
    {
        proof {
            reveal_strlit(".");
        }
        if self.0.len() == 0 {
            return String::from_str(".");
        }
        let mut text = String::new();
        let mut i: usize = 0;
        while i < self.0.len()
            invariant
                i <= self.0@.len(),
                text@ == parts_text(self@.take(i as int)),
            decreases self.0@.len() - i,
        {
            match &self.0[i] {
                Part::Name(name) => append_name(&mut text, name.as_str()),
                Part::Index(index) => append_index(&mut text, *index),
            }
            proof {
                let next = self@.take(i + 1);
                assert(next.drop_last() =~= self@.take(i as int));
                assert(next.last() == self.0@[i as int]@);
            }
            i = i + 1;
        }
        assert(self@.take(i as int) =~= self@);
        text
    }
}

impl std::ops::Deref for Path {
    type Target = Vec<Part>;

    fn deref(&self) -> (steps: &Vec<Part>)
        ensures
            *steps == self.0,
    {
        &self.0
    }
}

impl From<Path> for String {
    fn from(object: Path) -> (text: String)
        ensures
            text@ == path_text(object@),
    {
        object.to_string()
    }
}

impl vstd::std_specs::convert::FromSpecImpl<Path> for String {
    open spec fn obeys_from_spec() -> bool {
        false
    }

    open spec fn from_spec(object: Path) -> String {
        choose|text: String| text@ == path_text(object@)
    }
}

} // verus!
