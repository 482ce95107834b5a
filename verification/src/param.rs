//! Parameters of a message: opaque strings, ordered, with at most one
//! trailing parameter that may contain spaces and is always last.
use vstd::prelude::*;

verus! {

/// One parameter: an opaque string.
#[derive(Clone, Debug, PartialEq)]
pub struct Param {
    text: String,
}

impl View for Param {
    type V = Seq<char>;

    closed spec fn view(&self) -> Seq<char> {
        self.text@
    }
}

impl Param {
    /// A parameter spelling `param`.
    pub fn new(param: &str) -> (r: Param)
        ensures
            r@ == param@,
    {
        Param { text: param.to_owned() }
    }

    /// A parameter that owns `text`.
    pub fn from_string(text: String) -> (r: Param)
        ensures
            r@ == text@,
    {
        Param { text }
    }

    /// The parameter's text.
    pub fn as_str(&self) -> (r: &str)
        ensures
            r@ == self@,
    {
        self.text.as_str()
    }
}

/// The parameters joined in order with a single space between neighbours.
pub open spec fn spec_join_params(ps: Seq<Seq<char>>) -> Seq<char>
    decreases ps.len(),
{
    if ps.len() == 0 {
        Seq::empty()
    } else if ps.len() == 1 {
        ps[0]
    } else {
        spec_join_params(ps.drop_last()) + seq![' '] + ps.last()
    }
}

/// The joined text starts with the first parameter: the join inserts
/// nothing before it.
pub proof fn lemma_join_starts_with_first(ps: Seq<Seq<char>>)
    requires
        ps.len() > 0,
    ensures
        spec_join_params(ps).len() >= ps[0].len(),
        spec_join_params(ps).subrange(0, ps[0].len() as int) == ps[0],
    decreases ps.len(),
{
    if ps.len() == 1 {
        assert(spec_join_params(ps).subrange(0, ps[0].len() as int) =~= ps[0]);
    } else {
        lemma_join_starts_with_first(ps.drop_last());
        assert(ps.drop_last()[0] == ps[0]);
        let left = spec_join_params(ps.drop_last());
        assert(spec_join_params(ps) == left + seq![' '] + ps.last());
        assert(spec_join_params(ps).subrange(0, ps[0].len() as int) =~= left.subrange(
            0,
            ps[0].len() as int,
        ));
    }
}

/// An ordered parameter list.
#[derive(Debug, PartialEq)]
pub struct Params {
    params: Vec<Param>,
}

impl View for Params {
    type V = Seq<Seq<char>>;

    closed spec fn view(&self) -> Seq<Seq<char>> {
        self.params@.map_values(|p: Param| p@)
    }
}

impl Params {
    /// An empty parameter list.
    pub fn new() -> (r: Params)
        ensures
            r@ == Seq::<Seq<char>>::empty(),
    {
        let r = Params { params: Vec::new() };
        proof {
            assert(r@ =~= Seq::<Seq<char>>::empty());
        }
        r
    }

    /// Appends `param` at the end of the list.
    pub fn add(&mut self, param: Param)
        ensures
            final(self)@ == old(self)@.push(param@),
    {
        let ghost p = param@;
        self.params.push(param);
        proof {
            assert(self@ =~= old(self)@.push(p));
        }
    }

    /// How many parameters the list holds.
    pub fn len(&self) -> (r: usize)
        ensures
            r == self@.len(),
    {
        self.params.len()
    }

    /// The parameter at `index`: `Some` exactly when `index` is within the list.
    pub fn get(&self, index: usize) -> (r: Option<&Param>)
        ensures
            index < self@.len() ==> (r matches Some(p) && p@ == self@[index as int]),
            index >= self@.len() ==> r is None,
    {
        if index < self.params.len() {
            Some(&self.params[index])
        } else {
            None
        }
    }

    /// Appends the space-joined parameters to `out`.
    pub fn push_joined(&self, out: &mut Vec<char>)
        ensures
            final(out)@ == old(out)@ + spec_join_params(self@),
    {
        let n = self.params.len();
        let mut i: usize = 0;
        while i < n
            invariant
                i <= n,
                n == self@.len(),
                out@ == old(out)@ + spec_join_params(self@.take(i as int)),
            decreases n - i,
        {
            proof {
                assert(self@.take(i as int) =~= self@.take(i + 1 as int).drop_last());
                assert(self@.take(i + 1 as int).last() == self@[i as int]);
            }
            if i > 0 {
                out.push(' ');
            }
            crate::chars::push_str_chars(out, self.params[i].as_str());
            proof {
                if i == 0 {
                    assert(spec_join_params(self@.take(1)) == self@[0]);
                    assert(out@ =~= old(out)@ + spec_join_params(self@.take(1)));
                } else {
                    assert(out@ =~= old(out)@ + (spec_join_params(self@.take(i as int)) + seq![' ']
                        + self@[i as int]));
                }
            }
            i = i + 1;
        }
        proof {
            assert(self@.take(n as int) =~= self@);
        }
    }

    /// The parameters as owned strings, in order.
    pub fn to_vec(&self) -> (r: Vec<String>)
        ensures
            r@.len() == self@.len(),
            forall|i: int| 0 <= i < r@.len() ==> r@[i]@ == self@[i],
    {
        let mut r: Vec<String> = Vec::new();
        let mut i: usize = 0;
        let n = self.params.len();
        while i < n
            invariant
                i <= n,
                n == self@.len(),
                r@.len() == i,
                forall|j: int| 0 <= j < i ==> r@[j]@ == self@[j],
            decreases n - i,
        {
            r.push(self.params[i].as_str().to_owned());
            i = i + 1;
        }
        r
    }
}

} // verus!
