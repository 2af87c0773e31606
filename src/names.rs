use vstd::prelude::*;

verus! {

/// Where the last piece of `s` begins when `s` is split at `::` from left to
/// right, scanning from `i` with the current piece starting at `start`.
pub open spec fn piece_start(s: Seq<char>, i: int, start: int) -> int
    decreases s.len() - i,
{
    if i < 0 || i + 1 >= s.len() {
        start
    } else if s[i] == ':' && s[i + 1] == ':' {
        piece_start(s, i + 2, i + 2)
    } else {
        piece_start(s, i + 1, start)
    }
}

/// The last piece of `s` split at `::` from left to right: `c` for `a::b::c`.
pub open spec fn last_path_segment(s: Seq<char>) -> Seq<char> {
    s.subrange(piece_start(s, 0, 0), s.len() as int)
}

proof fn lemma_piece_start_bounds(s: Seq<char>, i: int, start: int)
    requires
        0 <= i,
        0 <= start <= s.len(),
        start <= i + 1 || i + 1 >= s.len(),
    ensures
        0 <= piece_start(s, i, start) <= s.len(),
    decreases s.len() - i,
{
    if i + 1 < s.len() {
        if s[i] == ':' && s[i + 1] == ':' {
            lemma_piece_start_bounds(s, i + 2, i + 2);
        } else {
            lemma_piece_start_bounds(s, i + 1, start);
        }
    }
}

/// The name of a step: plain text, compared by content.
#[derive(Debug, Clone, Hash)]
pub struct StepName(String);

/// The key of a value in a [`Context`](crate::Context): plain text, compared
/// by content.
#[derive(Debug, Clone, Hash)]
pub struct ContextKey(String);

impl View for StepName {
    type V = Seq<char>;

    closed spec fn view(&self) -> Seq<char> {
        self.0@
    }
}

impl View for ContextKey {
    type V = Seq<char>;

    closed spec fn view(&self) -> Seq<char> {
        self.0@
    }
}

impl StepName {
    pub fn new(name: &str) -> (r: Self)
        ensures
            r@ == name@,
    {
        StepName(name.to_owned())
    }

    /// The name for a type path such as `app::steps::Fetch`: its last
    /// `::`-separated piece, `Fetch`.
    pub fn from_path(path: &str) -> (r: Self)
        ensures
            r@ == last_path_segment(path@),
    {
        let n = path.unicode_len();
        let mut i: usize = 0;
        let mut start: usize = 0;
        while i <= n && n - i >= 2
            invariant
                n == path@.len(),
                i <= n,
                start <= i,
                piece_start(path@, i as int, start as int) == piece_start(path@, 0, 0),
            decreases n - i,
        {
            if path.get_char(i) == ':' && path.get_char(i + 1) == ':' {
                i = i + 2;
                start = i;
            } else {
                i = i + 1;
            }
        }
        proof {
            lemma_piece_start_bounds(path@, i as int, start as int);
        }
        StepName(path.substring_char(start, n).to_owned())
    }

    pub fn as_str(&self) -> (r: &str)
        ensures
            r@ == self@,
    {
        self.0.as_str()
    }

    /// A second name equal to this one.
    pub fn duplicate(&self) -> (r: Self)
        ensures
            r == *self,
    {
        StepName(self.0.clone())
    }
}

impl ContextKey {
    pub fn new(key: &str) -> (r: Self)
        ensures
            r@ == key@,
    {
        ContextKey(key.to_owned())
    }

    pub fn as_str(&self) -> (r: &str)
        ensures
            r@ == self@,
    {
        self.0.as_str()
    }
}

impl PartialEq for StepName {
    fn eq(&self, other: &StepName) -> (r: bool) {
        self.0 == other.0
    }
}

impl vstd::std_specs::cmp::PartialEqSpecImpl for StepName {
    open spec fn obeys_eq_spec() -> bool {
        true
    }

    open spec fn eq_spec(&self, other: &StepName) -> bool {
        self@ == other@
    }
}

impl Eq for StepName {

}

impl PartialEq for ContextKey {
    fn eq(&self, other: &ContextKey) -> (r: bool) {
        self.0 == other.0
    }
}

impl vstd::std_specs::cmp::PartialEqSpecImpl for ContextKey {
    open spec fn obeys_eq_spec() -> bool {
        true
    }

    open spec fn eq_spec(&self, other: &ContextKey) -> bool {
        self@ == other@
    }
}

impl Eq for ContextKey {

}

} // verus!
