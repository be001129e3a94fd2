//! Absolute paths as component sequences, and splitting path text into
//! components.

use vstd::prelude::*;
use vstd::string::*;

use crate::text::str_eq;

verus! {

/// The pieces of `s` between `/` separators, in order, empty pieces
/// included; the empty string splits into one empty piece.
pub open spec fn raw_split(s: Seq<char>) -> Seq<Seq<char>>
    decreases s.len(),
{
    if s.len() == 0 {
        seq![Seq::<char>::empty()]
    } else if s.last() == '/' {
        raw_split(s.drop_last()).push(Seq::<char>::empty())
    } else {
        let p = raw_split(s.drop_last());
        p.update(p.len() - 1, p.last().push(s.last()))
    }
}

/// Splitting always yields at least the one piece being built.
proof fn lemma_raw_split_len(s: Seq<char>)
    ensures
        raw_split(s).len() >= 1,
    decreases s.len(),
{
    if s.len() != 0 {
        lemma_raw_split_len(s.drop_last());
    }
}

/// A piece that survives as a path component: nonempty and neither `.`
/// nor `..`.
pub open spec fn keep_comp(c: Seq<char>) -> bool {
    c.len() != 0 && c != "."@ && c != ".."@
}

/// The pieces that survive as components, in order.
pub open spec fn filter_comps(cs: Seq<Seq<char>>) -> Seq<Seq<char>>
    decreases cs.len(),
{
    if cs.len() == 0 {
        Seq::empty()
    } else if keep_comp(cs.last()) {
        filter_comps(cs.drop_last()).push(cs.last())
    } else {
        filter_comps(cs.drop_last())
    }
}

/// The components of the path written `s`: the parts between `/`, with
/// empty, `.` and `..` parts collapsed away.
pub open spec fn path_comps(s: Seq<char>) -> Seq<Seq<char>> {
    filter_comps(raw_split(s))
}

/// The views of a vector of component strings.
pub open spec fn comps_view(v: Seq<String>) -> Seq<Seq<char>> {
    Seq::new(v.len(), |i: int| v[i]@)
}

/// The textual form of joined components: `/` before each one.
pub open spec fn spec_join_comps(cs: Seq<Seq<char>>) -> Seq<char>
    decreases cs.len(),
{
    if cs.len() == 0 {
        Seq::empty()
    } else {
        spec_join_comps(cs.drop_last()) + "/"@ + cs.last()
    }
}

/// The textual form of an absolute path with components `cs`: the
/// components each preceded by `/`, or a bare `/` where there are none.
pub open spec fn spec_path_str(cs: Seq<Seq<char>>) -> Seq<char> {
    if cs.len() == 0 {
        "/"@
    } else {
        spec_join_comps(cs)
    }
}

/// Joining path text `s` onto the components `p`: appended component by
/// component, or replacing `p` entirely where `s` is itself absolute.
pub open spec fn spec_join(p: Seq<Seq<char>>, s: Seq<char>) -> Seq<Seq<char>> {
    if s.len() > 0 && s[0] == '/' {
        path_comps(s)
    } else {
        p + path_comps(s)
    }
}

/// Whether the component text keeps a piece.
fn keep_component(c: &str) -> (r: bool)
    ensures
        r == keep_comp(c@),
{
    if c.unicode_len() == 0 {
        return false;
    }
    if str_eq(c, ".") {
        return false;
    }
    if str_eq(c, "..") {
        return false;
    }
    true
}

/// The components of the path written `s`, as owned strings.
pub fn split_path(s: &str) -> (r: Vec<String>)
    ensures
        comps_view(r@) == path_comps(s@),
{
    let mut acc: Vec<String> = Vec::new();
    let mut start: usize = 0;
    let n = s.unicode_len();
    for i in 0..n
        invariant
            n == s@.len(),
            start <= i <= n,
            comps_view(acc@) == filter_comps(raw_split(s@.take(i as int)).drop_last()),
            raw_split(s@.take(i as int)).last() == s@.subrange(start as int, i as int),
    {
        proof {
            lemma_raw_split_len(s@.take(i as int));
            assert(s@.take(i + 1 as int).drop_last() =~= s@.take(i as int));
            assert(s@.take(i + 1 as int).last() == s@[i as int]);
        }
        let c = s.get_char(i);
        if c == '/' {
            let ghost rs_old = raw_split(s@.take(i as int));
            let comp = s.substring_char(start, i);
            if keep_component(comp) {
                let owned = comp.to_owned();
                proof {
                    assert(comps_view(acc@.push(owned)) =~= comps_view(acc@).push(owned@));
                }
                acc.push(owned);
            }
            start = i + 1;
            proof {
                assert(raw_split(s@.take(i + 1 as int)) == rs_old.push(Seq::<char>::empty()));
                assert(rs_old.push(Seq::<char>::empty()).drop_last() =~= rs_old);
                assert(s@.subrange(start as int, i + 1 as int) =~= Seq::<char>::empty());
            }
        } else {
            proof {
                let p = raw_split(s@.take(i as int));
                let p2 = raw_split(s@.take(i + 1 as int));
                assert(p2 == p.update(p.len() - 1, p.last().push(s@[i as int])));
                assert(p2.drop_last() =~= p.drop_last());
                assert(p2.last() =~= s@.subrange(start as int, i + 1 as int));
            }
        }
    }
    proof {
        lemma_raw_split_len(s@.take(n as int));
        assert(s@.take(n as int) =~= s@);
    }
    let comp = s.substring_char(start, n);
    if keep_component(comp) {
        let owned = comp.to_owned();
        proof {
            assert(comps_view(acc@.push(owned)) =~= comps_view(acc@).push(owned@));
        }
        acc.push(owned);
    }
    acc
}

/// An absolute filesystem path, held as its components below the root.
#[derive(Debug)]
pub struct AbsPath {
    comps: Vec<String>,
}

impl View for AbsPath {
    type V = Seq<Seq<char>>;

    closed spec fn view(&self) -> Seq<Seq<char>> {
        comps_view(self.comps@)
    }
}

impl AbsPath {
    /// The path written `s`, read as absolute.
    pub fn new(s: &str) -> (r: AbsPath)
        ensures
            r@ == path_comps(s@),
    {
        AbsPath { comps: split_path(s) }
    }

    /// A path assembled from ready components.
    pub(crate) fn from_comps(comps: Vec<String>) -> (r: AbsPath)
        ensures
            r@ == comps_view(comps@),
    {
        AbsPath { comps }
    }

    /// The components, in order from the root.
    pub(crate) fn comps(&self) -> (r: &Vec<String>)
        ensures
            comps_view(r@) == self@,
    {
        &self.comps
    }

    /// The textual form: each component preceded by `/`, or a bare `/` for
    /// the path with no components.
    pub fn to_string(&self) -> (r: String)
        ensures
            r@ == spec_path_str(self@),
    {
        let n = self.comps.len();
        if n == 0 {
            return String::from_str("/");
        }
        let mut out = String::new();
        for i in 0..n
            invariant
                n == self.comps@.len(),
                out@ == spec_join_comps(self@.take(i as int)),
        {
            proof {
                assert(self@.take(i + 1 as int).drop_last() =~= self@.take(i as int));
                assert(self@.take(i + 1 as int).last() == self.comps@[i as int]@);
            }
            out.append("/");
            out.append(self.comps[i].as_str());
        }
        proof {
            assert(self@.take(n as int) =~= self@);
        }
        out
    }

    /// The components, cloned into a fresh vector.
    pub(crate) fn cloned_comps(&self) -> (r: Vec<String>)
        ensures
            comps_view(r@) == self@,
    {
        let mut comps: Vec<String> = Vec::new();
        let k = self.comps.len();
        for i in 0..k
            invariant
                k == self.comps@.len(),
                comps_view(comps@) == self@.take(i as int),
        {
            let owned = self.comps[i].clone();
            proof {
                assert(comps_view(comps@.push(owned)) =~= comps_view(comps@).push(owned@));
                assert(self@.take(i + 1 as int) =~= self@.take(i as int).push(self.comps@[i as int]@));
            }
            comps.push(owned);
        }
        proof {
            assert(self@.take(k as int) =~= self@);
        }
        comps
    }

    /// This path extended with the path written `s`.
    pub fn join(&self, s: &str) -> (r: AbsPath)
        ensures
            r@ == spec_join(self@, s@),
    {
        if s.unicode_len() > 0 && s.get_char(0) == '/' {
            AbsPath { comps: split_path(s) }
        } else {
            self.append(s)
        }
    }

    /// This path extended with the components of `s`, kept relative even
    /// where `s` is written absolute.
    pub fn append(&self, s: &str) -> (r: AbsPath)
        ensures
            r@ == self@ + path_comps(s@),
    {
        let parts = split_path(s);
        let mut comps: Vec<String> = self.cloned_comps();
        let m = parts.len();
        for j in 0..m
            invariant
                m == parts@.len(),
                comps_view(parts@) == path_comps(s@),
                comps_view(comps@) == self@ + path_comps(s@).take(j as int),
        {
            let owned = parts[j].clone();
            proof {
                assert(comps_view(comps@.push(owned)) =~= comps_view(comps@).push(owned@));
                assert((self@ + path_comps(s@).take(j + 1 as int)) =~= (self@ + path_comps(s@).take(
                    j as int,
                )).push(comps_view(parts@)[j as int]));
            }
            comps.push(owned);
        }
        proof {
            assert(self@ + path_comps(s@).take(m as int) =~= self@ + path_comps(s@));
        }
        AbsPath { comps }
    }
}

} // verus!
